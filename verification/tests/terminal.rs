use rabbitnook::terminal::{interpret, Command, CommandKind, HistoryOp, SideEffect};

fn text_cmd(input: &str, value: &str, label: &str) -> Command {
    Command {
        input: input.to_string(),
        kind: CommandKind::Text,
        value: value.to_string(),
        label: label.to_string(),
    }
}

fn link_cmd(input: &str, url: &str, label: &str) -> Command {
    Command {
        input: input.to_string(),
        kind: CommandKind::Link,
        value: url.to_string(),
        label: label.to_string(),
    }
}

#[test]
fn help_appends_fixed_message() {
    let r = interpret("help".to_string(), 0);
    assert_eq!(
        r.op,
        HistoryOp::Append(text_cmd(
            "help",
            "Available commands: help, pwd, git, vim, email, sudo, linkedin, clear",
            "help",
        ))
    );
    assert_eq!(r.effect, SideEffect::NoEffect);
}

#[test]
fn help_message_same_at_any_length() {
    for n in [0, 1, 5, 12] {
        let r = interpret("help".to_string(), n);
        assert_eq!(
            r.op,
            HistoryOp::Append(text_cmd(
                "help",
                "Available commands: help, pwd, git, vim, email, sudo, linkedin, clear",
                "help",
            ))
        );
    }
    let r = interpret("help".to_string(), 13);
    assert_eq!(
        r.op,
        HistoryOp::ClearThenAppend(text_cmd(
            "help",
            "Available commands: help, pwd, git, vim, email, sudo, linkedin, clear",
            "help",
        ))
    );
}

#[test]
fn clear_always_clears_and_opens_nothing() {
    for n in [0, 1, 12, 13, 100] {
        let r = interpret("clear".to_string(), n);
        assert_eq!(r.op, HistoryOp::Clear);
        assert_eq!(r.effect, SideEffect::NoEffect);
    }
}

#[test]
fn sudo_opens_its_fixed_url() {
    let url = "https://www.youtube.com/watch?v=dQw4w9WgXcQ";
    let r = interpret("sudo".to_string(), 0);
    assert_eq!(r.op, HistoryOp::Append(link_cmd("sudo", url, "sudo")));
    assert_eq!(r.effect, SideEffect::OpenUrl(url.to_string()));
}

#[test]
fn pwd_opens_its_fixed_url() {
    let url = "https://github.com/safstromo/rabbitnook";
    let r = interpret("pwd".to_string(), 0);
    assert_eq!(
        r.op,
        HistoryOp::Append(link_cmd("pwd", url, "github.com/safstromo/rabbitnook"))
    );
    assert_eq!(r.effect, SideEffect::OpenUrl(url.to_string()));
}

#[test]
fn git_opens_its_fixed_url() {
    let url = "https://github.com/safstromo";
    let r = interpret("git".to_string(), 0);
    assert_eq!(r.op, HistoryOp::Append(link_cmd("git", url, "github.com/safstromo")));
    assert_eq!(r.effect, SideEffect::OpenUrl(url.to_string()));
}

#[test]
fn email_opens_its_fixed_url() {
    let url = "mailto:safstrom.oliver@gmail.com";
    let r = interpret("email".to_string(), 0);
    assert_eq!(
        r.op,
        HistoryOp::Append(link_cmd("email", url, "safstrom.oliver@gmail.com"))
    );
    assert_eq!(r.effect, SideEffect::OpenUrl(url.to_string()));
}

#[test]
fn linkedin_opens_its_fixed_url() {
    let url = "https://www.linkedin.com/in/safstromo/";
    let r = interpret("linkedin".to_string(), 0);
    assert_eq!(
        r.op,
        HistoryOp::Append(link_cmd("linkedin", url, "linkedin.com/in/safstromo"))
    );
    assert_eq!(r.effect, SideEffect::OpenUrl(url.to_string()));
}

#[test]
fn vim_opens_its_fixed_url() {
    let url = "https://github.com/safstromo/.dotfiles/tree/main/nvim/.config/nvim";
    let r = interpret("vim".to_string(), 0);
    assert_eq!(r.op, HistoryOp::Append(link_cmd("vim", url, "nvim .dotfiles")));
    assert_eq!(r.effect, SideEffect::OpenUrl(url.to_string()));
}

#[test]
fn unknown_input_is_not_found() {
    let r = interpret("xyz".to_string(), 0);
    assert_eq!(
        r.op,
        HistoryOp::Append(text_cmd("xyz", "xyz: command not found", "invalid"))
    );
    assert_eq!(r.effect, SideEffect::NoEffect);
}

#[test]
fn empty_input_is_not_found() {
    let r = interpret(String::new(), 0);
    assert_eq!(r.op, HistoryOp::Append(text_cmd("", ": command not found", "invalid")));
    assert_eq!(r.effect, SideEffect::NoEffect);
}

#[test]
fn matching_is_case_sensitive() {
    let r = interpret("Help".to_string(), 0);
    assert_eq!(
        r.op,
        HistoryOp::Append(text_cmd("Help", "Help: command not found", "invalid"))
    );
    assert_eq!(r.effect, SideEffect::NoEffect);
}

#[test]
fn matching_does_not_trim_whitespace() {
    let r = interpret(" help".to_string(), 0);
    assert_eq!(
        r.op,
        HistoryOp::Append(text_cmd(" help", " help: command not found", "invalid"))
    );
    assert_eq!(r.effect, SideEffect::NoEffect);

    let r = interpret("clear ".to_string(), 0);
    assert_eq!(
        r.op,
        HistoryOp::Append(text_cmd("clear ", "clear : command not found", "invalid"))
    );
    assert_eq!(r.effect, SideEffect::NoEffect);
}

#[test]
fn prefix_of_a_key_is_not_found() {
    let r = interpret("hel".to_string(), 0);
    assert_eq!(r.op, HistoryOp::Append(text_cmd("hel", "hel: command not found", "invalid")));
    let r = interpret("clearr".to_string(), 0);
    assert_eq!(
        r.op,
        HistoryOp::Append(text_cmd("clearr", "clearr: command not found", "invalid"))
    );
}

#[test]
fn append_below_limit_wipe_above_limit() {
    // A history of length 12 still takes a plain append; 13 forces the wipe.
    let r = interpret("xyz".to_string(), 12);
    assert!(matches!(r.op, HistoryOp::Append(_)));
    let r = interpret("xyz".to_string(), 13);
    assert!(matches!(r.op, HistoryOp::ClearThenAppend(_)));
}
