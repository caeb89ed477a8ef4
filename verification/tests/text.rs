use iplan::text::{
    checked_done_toast_title_from, checked_short_name, delete_list_heading_from,
    description_display, done_toast_title_from, fill_in, short_name,
};

#[test]
fn fill_in_replaces_every_placeholder() {
    assert_eq!(fill_in("\"{}\" moved", "Walk"), "\"Walk\" moved");
    assert_eq!(fill_in("{}{} and {}", "a"), "aa and a");
    assert_eq!(fill_in("{}", ""), "");
    assert_eq!(fill_in("no place", "x"), "no place");
    assert_eq!(fill_in("", "x"), "");
}

#[test]
fn fill_in_leaves_lone_braces() {
    assert_eq!(fill_in("{", "x"), "{");
    assert_eq!(fill_in("}{", "x"), "}{");
    assert_eq!(fill_in("{{}}", "x"), "{x}");
    assert_eq!(fill_in("{ }", "x"), "{ }");
    assert_eq!(fill_in("a{", "x"), "a{");
}

#[test]
fn fill_in_does_not_fill_what_it_filled_in() {
    assert_eq!(fill_in("{}!", "{}"), "{}!");
    assert_eq!(fill_in("{{}", "}"), "{}");
}

#[test]
fn fill_in_agrees_with_replace() {
    for template in ["{}", "a{}b{}", "{{}}{", "täsk {} ök", "}{}{"] {
        for name in ["", "n", "{}", "längerer Name"] {
            assert_eq!(fill_in(template, name), template.replace("{}", name));
        }
    }
}

#[test]
fn description_display_is_the_first_line() {
    assert_eq!(description_display("first\nsecond\nthird"), "first");
    assert_eq!(description_display("only"), "only");
    assert_eq!(description_display(""), "");
    assert_eq!(description_display("\nsecond"), "");
    assert_eq!(description_display("first\n"), "first");
}

#[test]
fn description_display_drops_a_carriage_return_before_the_line_feed() {
    assert_eq!(description_display("first\r\nsecond"), "first");
    assert_eq!(description_display("\r\nsecond"), "");
    assert_eq!(description_display("fi\rrst\nsecond"), "fi\rrst");
    assert_eq!(description_display("first\r\r\nsecond"), "first\r");
}

#[test]
fn description_display_agrees_with_lines() {
    for text in ["", "a", "a\nb", "a\r\nb", "\n", "\r\n", "a\rb", "ä\nö", "a\r\r\n", "\n\n"] {
        let expected = match text.lines().next() {
            Some(line) => String::from(line),
            None => String::new(),
        };
        assert_eq!(description_display(text), expected);
    }
}

#[test]
fn short_name_keeps_a_name_of_fifteen() {
    assert_eq!(short_name("fifteen letters"), "fifteen letters");
    assert_eq!(short_name(""), "");
    assert_eq!(short_name("ääääääääääääääö"), "ääääääääääääääö");
}

#[test]
fn short_name_cuts_a_longer_name() {
    assert_eq!(short_name("sixteen letters!"), "sixteen letters...");
    assert_eq!(short_name("a much longer name of a task"), "a much longer n...");
}

#[test]
fn short_name_cuts_by_bytes() {
    let name = "äbcdefghijklmnopq";
    assert!(name.is_char_boundary(15));
    assert_eq!(short_name(name), "äbcdefghijklmn...");
}

#[test]
fn done_toast_title_from_a_template() {
    assert_eq!(
        done_toast_title_from("\"{}\" moved to the done tasks list", "Water the garden beds"),
        "\"Water the garde...\" moved to the done tasks list"
    );
    assert_eq!(done_toast_title_from("{} erledigt", "Gießen"), "Gießen erledigt");
}

#[test]
fn checked_done_toast_title_from_a_template() {
    assert_eq!(
        checked_done_toast_title_from("\"{}\" moved to the done tasks list", "Walk"),
        Some(String::from("\"Walk\" moved to the done tasks list"))
    );
    assert_eq!(
        checked_done_toast_title_from("{} erledigt", "Water the garden beds"),
        Some(String::from("Water the garde... erledigt"))
    );
    assert_eq!(checked_done_toast_title_from("{} erledigt", "abcdefghijklmnöp"), None);
}

#[test]
fn delete_list_heading_from_a_template() {
    assert_eq!(delete_list_heading_from("Delete \"{}\" list?", "Today"), "Delete \"Today\" list?");
    assert_eq!(
        delete_list_heading_from("Liste „{}“ löschen?", "a list with a long name"),
        "Liste „a list with a long name“ löschen?"
    );
    assert_eq!(delete_list_heading_from("Delete?", "Today"), "Delete?");
}

#[test]
fn checked_short_name_refuses_a_cut_inside_a_character() {
    assert_eq!(checked_short_name("abcdefghijklmnöp"), None);
    assert_eq!(checked_short_name("abcdefghijklmnö"), Some(String::from("abcdefghijklmnö")));
    assert_eq!(
        checked_short_name("abcdefghijklmnopö"),
        Some(String::from("abcdefghijklmno..."))
    );
    assert_eq!(checked_short_name(""), Some(String::new()));
}
