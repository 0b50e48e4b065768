use pelp::{annotate_line, evaluate, get_profile, ColorEntry, Config, NamedProfile, RenderedOutput, Scope};

fn rule(trigger: &str, scope: Scope, color: &str) -> ColorEntry {
    ColorEntry {
        color: color.to_string(),
        trigger: trigger.to_string(),
        scope,
        replace: false,
        replace_with: String::new(),
        ignore: false,
    }
}

fn plain(text: &str) -> RenderedOutput {
    RenderedOutput { text: text.to_string(), style: None }
}

fn styled(text: &str, style: &str) -> RenderedOutput {
    RenderedOutput { text: text.to_string(), style: Some(style.to_string()) }
}

#[test]
fn error_line_is_styled() {
    let profile = vec![rule("ERROR", Scope::Anywhere, "31")];
    let out = evaluate("2024 ERROR disk full", &profile);
    assert_eq!(out, vec![styled("2024 ERROR disk full", "31")]);
}

#[test]
fn clear_line_is_plain() {
    let profile = vec![rule("ERROR", Scope::Anywhere, "31")];
    let out = evaluate("all clear", &profile);
    assert_eq!(out, vec![plain("all clear")]);
}

#[test]
fn two_matching_rules_render_twice_in_order() {
    let profile = vec![rule("disk", Scope::Anywhere, "33"), rule("2024", Scope::LineStart, "31")];
    let out = evaluate("2024 ERROR disk full", &profile);
    assert_eq!(out, vec![styled("2024 ERROR disk full", "33"), styled("2024 ERROR disk full", "31")]);
}

#[test]
fn one_output_per_active_rule() {
    let mut skipped = rule("x", Scope::Anywhere, "32");
    skipped.ignore = true;
    let profile = vec![rule("a", Scope::Anywhere, "31"), skipped, rule("zzz", Scope::Anywhere, "34"), rule("b", Scope::LineStart, "35")];
    let out = evaluate("abc", &profile);
    assert_eq!(out, vec![styled("abc", "31"), plain("abc"), plain("abc")]);
}

#[test]
fn ignored_matching_rule_renders_nothing() {
    let mut skipped = rule("abc", Scope::Anywhere, "32");
    skipped.ignore = true;
    assert!(skipped.render("abc").is_none());
    assert!(evaluate("abc", &vec![skipped]).is_empty());
}

#[test]
fn empty_profile_renders_nothing() {
    assert!(evaluate("abc", &Vec::new()).is_empty());
}

#[test]
fn line_start_scope_needs_a_prefix() {
    let r = rule("ERROR", Scope::LineStart, "31");
    assert!(r.is_triggered("ERROR at boot"));
    assert!(!r.is_triggered("boot ERROR"));
    assert!(!r.is_triggered("error at boot"));
    assert_eq!(evaluate("boot ERROR", &vec![r]), vec![plain("boot ERROR")]);
}

#[test]
fn anywhere_scope_finds_a_substring() {
    let r = rule("ERROR", Scope::Anywhere, "31");
    assert!(r.is_triggered("ERROR at boot"));
    assert!(r.is_triggered("boot ERROR"));
    assert!(r.is_triggered("bootERRORed"));
    assert!(!r.is_triggered("boot ERRO"));
    assert!(!r.is_triggered("ERR"));
}

#[test]
fn matching_is_by_character() {
    let r = rule("wö", Scope::Anywhere, "36");
    assert!(r.is_triggered("héllo wörld"));
    assert!(!r.is_triggered("héllo world"));
    let s = rule("hé", Scope::LineStart, "36");
    assert!(s.is_triggered("héllo"));
    assert!(!s.is_triggered("hello"));
}

#[test]
fn scope_names() {
    assert_eq!(Scope::from_name("start of line"), Scope::LineStart);
    assert_eq!(Scope::from_name("sol"), Scope::LineStart);
    assert_eq!(Scope::from_name("anywhere"), Scope::Anywhere);
    assert_eq!(Scope::from_name(""), Scope::Anywhere);
    assert_eq!(Scope::from_name("SOL"), Scope::Anywhere);
    assert_eq!(Scope::from_name("start of lines"), Scope::Anywhere);
}

#[test]
fn substitution_leaves_output_unchanged() {
    let mut r = rule("-", Scope::Anywhere, "31");
    r.replace = true;
    r.replace_with = "+".to_string();
    assert_eq!(evaluate("a-b-c", &vec![r]), vec![styled("a-b-c", "31")]);
}

#[test]
fn substituted_replaces_every_occurrence() {
    let mut r = rule("-", Scope::Anywhere, "31");
    r.replace = true;
    r.replace_with = "+".to_string();
    assert_eq!(r.substituted("a-b-c"), Some("a+b+c".to_string()));
    assert_eq!(r.substituted("abc"), None);
    r.replace_with = String::new();
    assert_eq!(r.substituted("a-b-c"), Some("abc".to_string()));
}

#[test]
fn substituted_needs_replace_flag() {
    let r = rule("-", Scope::Anywhere, "31");
    assert_eq!(r.substituted("a-b"), None);
}

#[test]
fn unmatched_rule_passes_line_through() {
    let mut r = rule("panic", Scope::Anywhere, "31");
    r.replace = true;
    r.replace_with = "PANIC".to_string();
    assert_eq!(evaluate("all good", &vec![r]), vec![plain("all good")]);
}

#[test]
fn blank_lines_render_nothing() {
    let profile = vec![ColorEntry::default()];
    assert!(annotate_line("", &profile).is_empty());
    assert!(annotate_line("   \r\n", &profile).is_empty());
    assert!(annotate_line("\n", &profile).is_empty());
}

#[test]
fn trailing_whitespace_is_removed() {
    let profile = vec![rule("abc", Scope::Anywhere, "31")];
    assert_eq!(annotate_line("  abc \t\r\n", &profile), vec![styled("  abc", "31")]);
}

#[test]
fn missing_profile_falls_back_to_default_rule() {
    let conf = Config::default();
    let profile = get_profile(&conf, "default");
    assert_eq!(profile.len(), 1);
    let e = &profile[0];
    assert_eq!(e.trigger, "");
    assert_eq!(e.color, "");
    assert_eq!(e.scope, Scope::Anywhere);
    assert!(!e.ignore);
    assert!(!e.replace);
    assert_eq!(evaluate("anything at all", &profile), vec![styled("anything at all", "")]);
}

#[test]
fn named_profile_is_found() {
    let conf = Config {
        version: "1".to_string(),
        profiles: vec![
            NamedProfile { name: "serial".to_string(), entries: vec![rule("OK", Scope::LineStart, "32")] },
            NamedProfile { name: "kernel".to_string(), entries: vec![rule("oops", Scope::Anywhere, "31"), rule("warn", Scope::Anywhere, "33")] },
        ],
    };
    let p = get_profile(&conf, "kernel");
    assert_eq!(p.len(), 2);
    assert_eq!(p[0].trigger, "oops");
    assert_eq!(p[1].color, "33");
    let q = get_profile(&conf, "serial");
    assert_eq!(q.len(), 1);
    assert_eq!(q[0].scope, Scope::LineStart);
    let d = get_profile(&conf, "Serial");
    assert_eq!(d.len(), 1);
    assert_eq!(d[0].trigger, "");
}

#[test]
fn first_profile_of_a_name_wins() {
    let conf = Config {
        version: String::new(),
        profiles: vec![
            NamedProfile { name: "a".to_string(), entries: vec![rule("one", Scope::Anywhere, "31")] },
            NamedProfile { name: "a".to_string(), entries: vec![rule("two", Scope::Anywhere, "32")] },
        ],
    };
    assert_eq!(get_profile(&conf, "a")[0].trigger, "one");
}

#[test]
fn pattern_longer_than_line() {
    let r = rule("abcdef", Scope::Anywhere, "31");
    assert!(!r.is_triggered("abc"));
    let s = rule("abcdef", Scope::LineStart, "31");
    assert!(!s.is_triggered("abc"));
}

#[test]
fn char_helpers() {
    let a = pelp::chars_of("héllo");
    assert_eq!(a, vec!['h', 'é', 'l', 'l', 'o']);
    assert!(pelp::starts_with_chars(&vec!['h', 'é'], &a));
    assert!(pelp::occurs_in_chars(&vec!['l', 'o'], &a));
    assert!(!pelp::occurs_in_chars(&vec!['o', 'l'], &a));
    assert!(pelp::same_chars(&a, &pelp::chars_of("héllo")));
    assert!(!pelp::same_chars(&a, &pelp::chars_of("hello")));
}
