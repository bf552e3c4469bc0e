use command_repl::command::{parse, tokens, CommandDef, CommandSet};

fn set_help_add() -> CommandSet {
    CommandSet {
        defs: vec![
            CommandDef { name: b"help".to_vec(), arity: 0 },
            CommandDef { name: b"add".to_vec(), arity: 2 },
        ],
    }
}

#[test]
fn tokens_split_on_spaces() {
    let text = b" a  bc ".to_vec();
    let toks = tokens(&text);
    assert_eq!(toks.len(), 2);
    assert_eq!(toks[0], b"a".to_vec());
    assert_eq!(toks[1], b"bc".to_vec());
}

#[test]
fn tokens_of_empty_text() {
    let text = Vec::new();
    let toks = tokens(&text);
    assert_eq!(toks.len(), 0);
}

#[test]
fn tokens_of_only_spaces() {
    let text = b"   ".to_vec();
    let toks = tokens(&text);
    assert_eq!(toks.len(), 0);
}

#[test]
fn known_command_without_args_parses() {
    let set = set_help_add();
    let text = b"/help".to_vec();
    let pc = parse(&text, &set).expect("a declared command must classify");
    assert_eq!(pc.index, 0);
    assert_eq!(pc.args.len(), 0);
}

#[test]
fn known_command_with_args_parses() {
    let set = set_help_add();
    let text = b"/add 2 3".to_vec();
    let pc = parse(&text, &set).expect("a declared command must classify");
    assert_eq!(pc.index, 1);
    assert_eq!(pc.args, vec![b"2".to_vec(), b"3".to_vec()]);
}

#[test]
fn text_without_marker_is_not_a_command() {
    let set = set_help_add();
    let text = b"help".to_vec();
    assert!(parse(&text, &set).is_none());
}

#[test]
fn unknown_name_is_not_a_command() {
    let set = set_help_add();
    let text = b"/quit".to_vec();
    assert!(parse(&text, &set).is_none());
}

#[test]
fn empty_text_is_not_a_command() {
    let set = set_help_add();
    let text = Vec::new();
    assert!(parse(&text, &set).is_none());
}

#[test]
fn bare_marker_is_not_a_command() {
    let set = set_help_add();
    let text = b"/".to_vec();
    assert!(parse(&text, &set).is_none());
}

#[test]
fn wrong_arity_folds_into_not_a_command() {
    // The declared policy: a known name with a malformed argument list
    // takes the default path instead of reaching the handler.
    let set = set_help_add();
    let too_many = b"/help now".to_vec();
    assert!(parse(&too_many, &set).is_none());
    let too_few = b"/add 2".to_vec();
    assert!(parse(&too_few, &set).is_none());
}

#[test]
fn extra_spaces_between_args_are_ignored() {
    let set = set_help_add();
    let text = b"/add   2    3 ".to_vec();
    let pc = parse(&text, &set).expect("a declared command must classify");
    assert_eq!(pc.index, 1);
    assert_eq!(pc.args, vec![b"2".to_vec(), b"3".to_vec()]);
}

#[test]
fn declared_set_matches_in_declaration_order() {
    let mut set = CommandSet::new();
    set.declare(b"help".to_vec(), 0);
    set.declare(b"add".to_vec(), 2);
    let text = b"/add 1 2".to_vec();
    let pc = parse(&text, &set).expect("a declared command must classify");
    assert_eq!(pc.index, 1);
    assert_eq!(pc.args, vec![b"1".to_vec(), b"2".to_vec()]);
}

#[test]
fn first_declaration_of_a_name_wins() {
    let set = CommandSet {
        defs: vec![
            CommandDef { name: b"x".to_vec(), arity: 0 },
            CommandDef { name: b"x".to_vec(), arity: 1 },
        ],
    };
    let bare = b"/x".to_vec();
    let pc = parse(&bare, &set).expect("the first declaration must match");
    assert_eq!(pc.index, 0);
    // The first declaration's arity governs, so one argument cannot match.
    let with_arg = b"/x 1".to_vec();
    assert!(parse(&with_arg, &set).is_none());
}
