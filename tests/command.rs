use tsmusicbot::command::{parse_command, parse_sanitized, sanitize, split, Intent};

fn chars(s: &str) -> Vec<char> {
    s.chars().collect()
}

#[test]
fn empty_message_is_noop() {
    assert_eq!(parse_command(""), Intent::NoOp);
}

#[test]
fn text_without_bang_is_noop() {
    assert_eq!(parse_command("hello world"), Intent::NoOp);
    assert_eq!(parse_command("yt http://x"), Intent::NoOp);
    assert_eq!(parse_command("   "), Intent::NoOp);
    assert_eq!(parse_command("$$$"), Intent::NoOp);
}

#[test]
fn markup_only_message_is_noop() {
    assert_eq!(parse_command("[URL]http://x[/URL]"), Intent::NoOp);
    assert_eq!(parse_command("[URL][/URL]"), Intent::NoOp);
}

#[test]
fn non_ascii_first_char_is_noop() {
    assert_eq!(parse_command("é!stop"), Intent::NoOp);
}

#[test]
fn volume_above_range_is_clamped() {
    assert_eq!(parse_command("!volume 150"), Intent::SetVolume(100));
}

#[test]
fn negative_volume_is_noop() {
    assert_eq!(parse_command("!volume -5"), Intent::NoOp);
}

#[test]
fn zero_volume() {
    assert_eq!(parse_command("!volume 0"), Intent::SetVolume(0));
}

#[test]
fn volume_in_range() {
    assert_eq!(parse_command("!volume 42"), Intent::SetVolume(42));
    assert_eq!(parse_command("!volume 100"), Intent::SetVolume(100));
    assert_eq!(parse_command("!volume 99999999999999999999"), Intent::SetVolume(100));
}

#[test]
fn volume_without_number_is_noop() {
    assert_eq!(parse_command("!volume"), Intent::NoOp);
    assert_eq!(parse_command("!volume abc"), Intent::NoOp);
    assert_eq!(parse_command("!volume 5x"), Intent::NoOp);
    assert_eq!(parse_command("!volume  5"), Intent::NoOp);
}

#[test]
fn play_with_and_without_markup_agree() {
    let plain = parse_command("!yt http://x");
    let marked = parse_command("!yt [URL]http://x[/URL]");
    assert_eq!(plain, Intent::PlayRequest("http://x".to_string()));
    assert_eq!(marked, plain);
}

#[test]
fn play_alias() {
    assert_eq!(
        parse_command("!brki http://y"),
        Intent::PlayRequest("http://y".to_string())
    );
}

#[test]
fn play_without_source_is_noop() {
    assert_eq!(parse_command("!yt"), Intent::NoOp);
    assert_eq!(parse_command("!yt   "), Intent::NoOp);
}

#[test]
fn play_keeps_second_word_only() {
    assert_eq!(
        parse_command("  !yt https://a.b/watch?v=q_1&t=2 extra  "),
        Intent::PlayRequest("https://a.b/watch?v=q_1&t=2".to_string())
    );
}

#[test]
fn stop_ignores_trailing_words() {
    assert_eq!(parse_command("!stop"), Intent::Stop);
    assert_eq!(parse_command("!stop now please"), Intent::Stop);
    assert_eq!(parse_command("\t!stop\t"), Intent::Stop);
}

#[test]
fn commands_are_case_sensitive() {
    assert_eq!(parse_command("!STOP"), Intent::NoOp);
    assert_eq!(parse_command("!YT http://x"), Intent::NoOp);
}

#[test]
fn unknown_command_is_noop() {
    assert_eq!(parse_command("!skip 1"), Intent::NoOp);
}

#[test]
fn disallowed_characters_are_dropped() {
    assert_eq!(parse_command("!st$op"), Intent::Stop);
    assert_eq!(
        parse_command("!yt http://x/<a>"),
        Intent::PlayRequest("http://x/a".to_string())
    );
}

#[test]
fn sanitize_keeps_allowed_set() {
    assert_eq!(
        sanitize(&chars("aZ9 .=\t,?!:&/-_$#<>[]éß")),
        chars("aZ9 .=\t,?!:&/-_éß")
    );
}

#[test]
fn split_on_single_spaces() {
    assert_eq!(
        split(&chars("a  b"), ' '),
        vec![chars("a"), chars(""), chars("b")]
    );
    assert_eq!(split(&chars(""), ' '), vec![chars("")]);
}


#[test]
fn parse_sanitized_trims_and_decides() {
    assert_eq!(parse_sanitized(&chars("  !volume 7 ")), Intent::SetVolume(7));
    assert_eq!(parse_sanitized(&chars("")), Intent::NoOp);
    assert_eq!(
        parse_sanitized(&chars("!yt a b")),
        Intent::PlayRequest("a".to_string())
    );
}
