use rust_runner::conf::{parse_mode, plan_conf, DEFAULT_MODE};
use rust_runner::plan::Action;

#[test]
fn default_mode_is_rw_r_r() {
    assert_eq!(DEFAULT_MODE, 0o644);
    assert_eq!(DEFAULT_MODE, 420);
}

#[test]
fn parse_mode_reads_octal() {
    assert_eq!(parse_mode("600"), 0o600);
    assert_eq!(parse_mode("600"), 384);
    assert_eq!(parse_mode("0755"), 0o755);
    assert_eq!(parse_mode("7"), 7);
    assert_eq!(parse_mode("0"), 0);
    assert_eq!(parse_mode("+644"), 0o644);
    assert_eq!(parse_mode("+1"), 1);
    assert_eq!(parse_mode("000000000000000000000000000000777"), 0o777);
}

#[test]
fn parse_mode_falls_back_on_what_is_not_octal() {
    for s in ["", "+", "-", "-644", "8", "9", "78", "6 00", " 600", "600 ", "0o600", "rw-", "6_0", "++1", "1+", "٦"] {
        assert_eq!(parse_mode(s), 0o644, "{:?}", s);
    }
}

#[test]
fn parse_mode_handles_the_edge_of_32_bits() {
    assert_eq!(parse_mode("37777777777"), u32::MAX);
    assert_eq!(parse_mode("40000000000"), 0o644);
    assert_eq!(parse_mode("377777777770"), 0o644);
    assert_eq!(parse_mode("77777777777777777777777777777777777777777777"), 0o644);
    assert_eq!(parse_mode("+037777777777"), u32::MAX);
}

#[test]
fn parse_mode_agrees_with_std_on_samples() {
    let samples = [
        "", "0", "7", "8", "10", "644", "0644", "+644", "-644", "+", "-", "+-1", "1777", "4755",
        "37777777777", "40000000000", "777777777777", "a", "6a", "a6", " 6", "6 ", "+0", "00",
        "１２", "6\n",
    ];
    for s in samples {
        let expected = u32::from_str_radix(s, 8).unwrap_or(0o644);
        assert_eq!(parse_mode(s), expected, "{:?}", s);
    }
}

#[test]
fn parse_mode_agrees_with_std_on_all_short_strings() {
    let alphabet = ['0', '1', '7', '8', '+', '-', ' ', 'x'];
    let mut all = vec![String::new()];
    let mut last = vec![String::new()];
    for _ in 0..4 {
        let mut next = Vec::new();
        for s in &last {
            for c in alphabet {
                let mut t = s.clone();
                t.push(c);
                next.push(t);
            }
        }
        all.extend(next.iter().cloned());
        last = next;
    }
    for s in all {
        let expected = u32::from_str_radix(&s, 8).unwrap_or(0o644);
        assert_eq!(parse_mode(&s), expected, "{:?}", s);
    }
}

#[test]
fn conf_plan_writes_with_backup_and_mode() {
    let plan = plan_conf(
        0,
        &None,
        true,
        &Some("600".to_string()),
        "/tmp/out.conf".to_string(),
        "key = value\n".to_string(),
        false,
    );
    assert_eq!(plan.notices, vec!["\n==[1] conf ==".to_string(), "-> write /tmp/out.conf".to_string()]);
    match plan.action {
        Action::Write(file) => {
            assert_eq!(file.dest, "/tmp/out.conf");
            assert_eq!(file.content, "key = value\n");
            assert_eq!(file.backup, Some("/tmp/out.conf.bak".to_string()));
            assert_eq!(file.mode, Some(0o600));
        }
        other => panic!("{:?}", other),
    }
}

#[test]
fn conf_plan_without_backup_names_no_backup_file() {
    let plan = plan_conf(4, &Some("motd".to_string()), false, &None, "/etc/motd".to_string(), "hi".to_string(), false);
    assert_eq!(plan.notices, vec!["\n==[5] motd ==".to_string(), "-> write /etc/motd".to_string()]);
    match plan.action {
        Action::Write(file) => {
            assert_eq!(file.backup, None);
            assert_eq!(file.mode, None);
        }
        other => panic!("{:?}", other),
    }
}

#[test]
fn conf_plan_with_unreadable_mode_uses_the_default() {
    let plan = plan_conf(0, &None, false, &Some("rwx".to_string()), "d".to_string(), "c".to_string(), false);
    match plan.action {
        Action::Write(file) => assert_eq!(file.mode, Some(0o644)),
        other => panic!("{:?}", other),
    }
}

#[test]
fn conf_plan_in_preview_shows_the_content_and_writes_nothing() {
    let plan = plan_conf(
        2,
        &None,
        true,
        &Some("600".to_string()),
        "/tmp/out.conf".to_string(),
        "a\nb\n".to_string(),
        true,
    );
    assert_eq!(
        plan.notices,
        vec![
            "\n==[3] conf ==".to_string(),
            "-> write /tmp/out.conf".to_string(),
            "Content preview:\na\nb\n".to_string(),
        ]
    );
    assert!(matches!(plan.action, Action::Preview));
}
