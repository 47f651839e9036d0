use cross_exec::CommandSpec;

#[test]
fn echo_hello_specification() {
    let mut spec = CommandSpec::new(String::from("echo"));
    spec.arg(String::from("hello"));
    assert_eq!(spec.program, "echo");
    assert_eq!(spec.args, vec![String::from("hello")]);
    assert!(spec.env.is_empty());
    assert_eq!(spec.cwd, None);
    assert!(spec.inherit_stdio);
}

#[test]
fn builder_keeps_order_and_other_fields() {
    let mut spec = CommandSpec::new(String::from("sh"));
    spec.arg(String::from("-c"));
    spec.arg(String::from("exit 7"));
    assert_eq!(spec.args, vec![String::from("-c"), String::from("exit 7")]);

    spec.args(vec![String::from("a"), String::from("b")]);
    assert_eq!(
        spec.args,
        vec![
            String::from("-c"),
            String::from("exit 7"),
            String::from("a"),
            String::from("b"),
        ]
    );

    spec.env(String::from("KEY"), String::from("value"));
    spec.env(String::from("KEY2"), String::from("value2"));
    assert_eq!(
        spec.env,
        vec![
            (String::from("KEY"), String::from("value")),
            (String::from("KEY2"), String::from("value2")),
        ]
    );

    spec.current_dir(String::from("/tmp"));
    assert_eq!(spec.cwd, Some(String::from("/tmp")));

    spec.inherit_stdio(false);
    assert!(!spec.inherit_stdio);

    // none of the later calls disturbed the earlier fields
    assert_eq!(spec.program, "sh");
    assert_eq!(spec.args.len(), 4);
    assert_eq!(spec.env.len(), 2);
}
