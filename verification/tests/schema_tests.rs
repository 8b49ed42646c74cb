use pipeline_runner::document::Node;
use pipeline_runner::encode::{encode, encode_exec, encode_step};
use pipeline_runner::machine::Slot;
use pipeline_runner::model::{Exec, Output, Pipeline, Step};
use pipeline_runner::schema::{decode, decode_exec, decode_step, Field, ParseError, Place, Problem};

fn text(value: &str) -> Node {
    Node::Text(value.to_string())
}

fn number(value: &str) -> Node {
    Node::Number(value.to_string())
}

fn dict(entries: Vec<(&str, Node)>) -> Node {
    Node::Dict(entries.into_iter().map(|(key, value)| (text(key), value)).collect())
}

fn main_only(program: &str) -> Node {
    dict(vec![("main", dict(vec![("exec", text(program))]))])
}

fn document(steps: Vec<Node>) -> Node {
    dict(vec![("name", text("demo")), ("steps", Node::List(steps))])
}

fn fault(problem: Problem, step: Option<usize>, slot: Option<Slot>, field: Field) -> ParseError {
    ParseError { problem, place: Place { step, slot, field } }
}

fn full_pipeline() -> Pipeline {
    Pipeline {
        name: "release".to_string(),
        description: Some("build and ship".to_string()),
        use_env: true,
        steps: vec![
            Step {
                name: Some("build".to_string()),
                description: Some("compile everything".to_string()),
                main: Exec {
                    program: "make".to_string(),
                    args: Some(vec!["-j".to_string(), "8".to_string()]),
                    output: Output::Stdout,
                },
                pre: Some(Exec { program: "clean".to_string(), args: None, output: Output::Stdout }),
                post: Some(Exec {
                    program: "notify".to_string(),
                    args: Some(Vec::new()),
                    output: Output::Stdout,
                }),
                retries: 3,
                timeout: Some(120),
            },
            Step {
                name: None,
                description: None,
                main: Exec { program: "ship".to_string(), args: None, output: Output::Stdout },
                pre: None,
                post: None,
                retries: 0,
                timeout: None,
            },
        ],
    }
}

#[test]
fn the_smallest_document_gets_the_defaults() {
    let pipeline = decode(&document(vec![main_only("echo")])).unwrap();
    assert_eq!(
        pipeline,
        Pipeline {
            name: "demo".to_string(),
            description: None,
            use_env: false,
            steps: vec![Step {
                name: None,
                description: None,
                main: Exec { program: "echo".to_string(), args: None, output: Output::Stdout },
                pre: None,
                post: None,
                retries: 0,
                timeout: None,
            }],
        }
    );
}

#[test]
fn every_field_is_read() {
    let exec = |program: &str| dict(vec![("exec", text(program)), ("output", text("STDOUT"))]);
    let step = dict(vec![
        ("name", text("build")),
        ("description", text("compile")),
        ("main", dict(vec![("exec", text("make")), ("args", Node::List(vec![text("-j"), text("8")]))])),
        ("pre", exec("clean")),
        ("post", exec("notify")),
        ("retries", number("3")),
        ("timeout", number("120")),
    ]);
    let whole = dict(vec![
        ("name", text("release")),
        ("description", text("build and ship")),
        ("use_env", Node::Bool(true)),
        ("steps", Node::List(vec![step])),
    ]);
    let pipeline = decode(&whole).unwrap();
    assert_eq!(pipeline.name, "release");
    assert_eq!(pipeline.description, Some("build and ship".to_string()));
    assert!(pipeline.use_env);
    let step = &pipeline.steps[0];
    assert_eq!(step.name, Some("build".to_string()));
    assert_eq!(step.description, Some("compile".to_string()));
    assert_eq!(step.main.program, "make");
    assert_eq!(step.main.args, Some(vec!["-j".to_string(), "8".to_string()]));
    assert_eq!(step.pre.as_ref().unwrap().program, "clean");
    assert_eq!(step.post.as_ref().unwrap().program, "notify");
    assert_eq!(step.retries, 3);
    assert_eq!(step.timeout, Some(120));
}

#[test]
fn steps_keep_their_order() {
    let pipeline =
        decode(&document(vec![main_only("one"), main_only("two"), main_only("three")])).unwrap();
    let programs: Vec<&str> = pipeline.steps.iter().map(|step| step.main.program.as_str()).collect();
    assert_eq!(programs, vec!["one", "two", "three"]);
}

#[test]
fn an_empty_list_of_steps_is_a_pipeline() {
    let pipeline = decode(&document(Vec::new())).unwrap();
    assert!(pipeline.steps.is_empty());
}

#[test]
fn null_counts_as_absent() {
    let step = dict(vec![
        ("name", Node::Null),
        ("main", dict(vec![("exec", text("echo")), ("args", Node::Null), ("output", Node::Null)])),
        ("pre", Node::Null),
        ("retries", Node::Null),
        ("timeout", Node::Null),
    ]);
    let whole = dict(vec![
        ("name", text("demo")),
        ("description", Node::Null),
        ("use_env", Node::Null),
        ("steps", Node::List(vec![step])),
    ]);
    assert_eq!(decode(&whole), decode(&document(vec![main_only("echo")])));
    let nameless = dict(vec![("name", Node::Null), ("steps", Node::List(Vec::new()))]);
    assert_eq!(decode(&nameless), Err(fault(Problem::MissingField, None, None, Field::Name)));
}

#[test]
fn unknown_keys_are_passed_over() {
    let whole = dict(vec![
        ("version", number("2")),
        ("name", text("demo")),
        ("steps", Node::List(vec![dict(vec![
            ("main", dict(vec![("exec", text("echo")), ("shell", Node::Bool(true))])),
            ("when", text("always")),
        ])])),
    ]);
    assert_eq!(decode(&whole), decode(&document(vec![main_only("echo")])));
}

#[test]
fn the_first_of_two_equal_keys_counts() {
    let whole = dict(vec![
        ("name", text("first")),
        ("name", text("second")),
        ("steps", Node::List(Vec::new())),
    ]);
    assert_eq!(decode(&whole).unwrap().name, "first");
}

#[test]
fn a_key_that_is_no_text_is_no_field() {
    let whole = Node::Dict(vec![
        (Node::Bool(true), text("x")),
        (number("1"), text("y")),
        (text("name"), text("demo")),
        (text("steps"), Node::List(Vec::new())),
    ]);
    assert_eq!(decode(&whole).unwrap().name, "demo");
}

#[test]
fn a_document_that_is_no_mapping_is_rejected() {
    let wrong = fault(Problem::WrongType, None, None, Field::Document);
    assert_eq!(decode(&Node::Null), Err(wrong));
    assert_eq!(decode(&text("demo")), Err(wrong));
    assert_eq!(decode(&Node::List(Vec::new())), Err(wrong));
    assert_eq!(decode(&Node::Tagged("!x".to_string(), Box::new(document(Vec::new())))), Err(wrong));
}

#[test]
fn required_fields_must_be_there() {
    assert_eq!(
        decode(&dict(vec![("steps", Node::List(Vec::new()))])),
        Err(fault(Problem::MissingField, None, None, Field::Name))
    );
    assert_eq!(
        decode(&dict(vec![("name", text("demo"))])),
        Err(fault(Problem::MissingField, None, None, Field::Steps))
    );
    assert_eq!(
        decode(&document(vec![dict(vec![("name", text("x"))])])),
        Err(fault(Problem::MissingField, Some(0), Some(Slot::Main), Field::Command))
    );
    assert_eq!(
        decode(&document(vec![main_only("a"), dict(vec![("main", dict(Vec::new()))])])),
        Err(fault(Problem::MissingField, Some(1), Some(Slot::Main), Field::Program))
    );
}

#[test]
fn values_of_the_wrong_kind_are_rejected() {
    let with = |key: &str, value: Node| {
        dict(vec![("name", text("demo")), (key, value), ("steps", Node::List(Vec::new()))])
    };
    assert_eq!(
        decode(&dict(vec![("name", number("5")), ("steps", Node::List(Vec::new()))])),
        Err(fault(Problem::WrongType, None, None, Field::Name))
    );
    assert_eq!(
        decode(&with("description", Node::Bool(true))),
        Err(fault(Problem::WrongType, None, None, Field::Description))
    );
    assert_eq!(
        decode(&with("use_env", text("yes"))),
        Err(fault(Problem::WrongType, None, None, Field::UseEnv))
    );
    assert_eq!(
        decode(&document(vec![text("step")])),
        Err(fault(Problem::WrongType, Some(0), None, Field::Step))
    );
    assert_eq!(
        decode(&document(vec![dict(vec![("main", text("echo hi"))])])),
        Err(fault(Problem::WrongType, Some(0), Some(Slot::Main), Field::Command))
    );
}

#[test]
fn lists_must_be_lists() {
    assert_eq!(
        decode(&dict(vec![("name", text("demo")), ("steps", main_only("echo"))])),
        Err(fault(Problem::MalformedList, None, None, Field::Steps))
    );
    let step = dict(vec![("main", dict(vec![("exec", text("echo")), ("args", text("hi"))]))]);
    assert_eq!(
        decode(&document(vec![step])),
        Err(fault(Problem::MalformedList, Some(0), Some(Slot::Main), Field::Args))
    );
}

#[test]
fn arguments_must_be_texts() {
    let args = Node::List(vec![text("-n"), number("5")]);
    let step = dict(vec![
        ("main", dict(vec![("exec", text("a"))])),
        ("post", dict(vec![("exec", text("sleep")), ("args", args)])),
    ]);
    assert_eq!(
        decode(&document(vec![step])),
        Err(fault(Problem::WrongType, Some(0), Some(Slot::Post), Field::Arg))
    );
}

#[test]
fn only_stdout_is_a_known_output() {
    let with = |output: Node| {
        document(vec![dict(vec![("main", dict(vec![("exec", text("a")), ("output", output)]))])])
    };
    assert!(decode(&with(text("STDOUT"))).is_ok());
    assert_eq!(
        decode(&with(text("stdout"))),
        Err(fault(Problem::UnknownValue, Some(0), Some(Slot::Main), Field::Output))
    );
    assert_eq!(
        decode(&with(text("FILE"))),
        Err(fault(Problem::UnknownValue, Some(0), Some(Slot::Main), Field::Output))
    );
    assert_eq!(
        decode(&with(Node::Bool(true))),
        Err(fault(Problem::WrongType, Some(0), Some(Slot::Main), Field::Output))
    );
}

#[test]
fn retries_is_a_non_negative_integer() {
    let with = |retries: Node| {
        document(vec![dict(vec![("main", dict(vec![("exec", text("a"))])), ("retries", retries)])])
    };
    assert_eq!(decode(&with(number("0"))).unwrap().steps[0].retries, 0);
    assert_eq!(decode(&with(number("18446744073709551615"))).unwrap().steps[0].retries, u64::MAX);
    let wrong = Err(fault(Problem::WrongType, Some(0), None, Field::Retries));
    assert_eq!(decode(&with(number("-1"))), wrong);
    assert_eq!(decode(&with(number("1.5"))), wrong);
    assert_eq!(decode(&with(number("18446744073709551616"))), wrong);
    assert_eq!(decode(&with(text("3"))), wrong);
    assert_eq!(decode(&with(Node::Bool(false))), wrong);
}

#[test]
fn timeout_is_a_positive_integer() {
    let with = |timeout: Node| {
        document(vec![dict(vec![("main", dict(vec![("exec", text("a"))])), ("timeout", timeout)])])
    };
    assert_eq!(decode(&with(number("1"))).unwrap().steps[0].timeout, Some(1));
    assert_eq!(decode(&with(number("3600"))).unwrap().steps[0].timeout, Some(3600));
    assert_eq!(
        decode(&with(number("0"))),
        Err(fault(Problem::NotPositive, Some(0), None, Field::Timeout))
    );
    assert_eq!(
        decode(&with(number("-5"))),
        Err(fault(Problem::WrongType, Some(0), None, Field::Timeout))
    );
    assert_eq!(
        decode(&with(text("soon"))),
        Err(fault(Problem::WrongType, Some(0), None, Field::Timeout))
    );
}

#[test]
fn the_first_violation_is_reported() {
    let bad_step = dict(vec![
        ("name", number("1")),
        ("main", dict(Vec::new())),
        ("retries", text("x")),
    ]);
    assert_eq!(
        decode(&document(vec![main_only("a"), bad_step, text("worse")])),
        Err(fault(Problem::WrongType, Some(1), None, Field::Name))
    );
    let whole = dict(vec![("use_env", number("1")), ("steps", text("none"))]);
    assert_eq!(decode(&whole), Err(fault(Problem::MissingField, None, None, Field::Name)));
}

#[test]
fn a_command_and_a_step_can_be_read_alone() {
    let command = dict(vec![("exec", text("ls")), ("args", Node::List(vec![text("-l")]))]);
    assert_eq!(
        decode_exec(&command, None, None),
        Ok(Exec {
            program: "ls".to_string(),
            args: Some(vec!["-l".to_string()]),
            output: Output::Stdout
        })
    );
    assert_eq!(
        decode_exec(&Node::Null, Some(4), Some(Slot::Pre)),
        Err(fault(Problem::WrongType, Some(4), Some(Slot::Pre), Field::Command))
    );
    assert_eq!(decode_step(&main_only("ls"), 0).unwrap().main.program, "ls");
    assert_eq!(
        decode_step(&Node::List(Vec::new()), 6),
        Err(fault(Problem::WrongType, Some(6), None, Field::Step))
    );
}

#[test]
fn a_command_is_written_with_its_fields_in_order() {
    let command = Exec {
        program: "ls".to_string(),
        args: Some(vec!["-l".to_string()]),
        output: Output::Stdout,
    };
    assert_eq!(
        encode_exec(&command),
        dict(vec![
            ("exec", text("ls")),
            ("args", Node::List(vec![text("-l")])),
            ("output", text("STDOUT")),
        ])
    );
    let bare = Exec { program: "ls".to_string(), args: None, output: Output::Stdout };
    assert_eq!(encode_exec(&bare), dict(vec![("exec", text("ls")), ("output", text("STDOUT"))]));
}

#[test]
fn a_step_is_written_without_the_fields_it_lacks() {
    let pipeline = full_pipeline();
    assert_eq!(
        encode_step(&pipeline.steps[1]),
        dict(vec![
            ("main", dict(vec![("exec", text("ship")), ("output", text("STDOUT"))])),
            ("retries", number("0")),
        ])
    );
    let written = encode_step(&pipeline.steps[0]);
    let keys: Vec<Node> = match written {
        Node::Dict(entries) => entries.into_iter().map(|(key, _)| key).collect(),
        _ => Vec::new(),
    };
    let expected: Vec<Node> =
        ["name", "description", "main", "pre", "post", "retries", "timeout"].iter().map(|key| text(key)).collect();
    assert_eq!(keys, expected);
}

#[test]
fn a_pipeline_is_written_as_a_document() {
    let pipeline = Pipeline {
        name: "demo".to_string(),
        description: None,
        use_env: false,
        steps: Vec::new(),
    };
    assert_eq!(
        encode(&pipeline),
        dict(vec![
            ("name", text("demo")),
            ("use_env", Node::Bool(false)),
            ("steps", Node::List(Vec::new())),
        ])
    );
}

#[test]
fn reading_a_written_pipeline_gives_it_back() {
    let pipeline = full_pipeline();
    assert_eq!(decode(&encode(&pipeline)), Ok(pipeline));
    let empty =
        Pipeline { name: String::new(), description: None, use_env: false, steps: Vec::new() };
    assert_eq!(decode(&encode(&empty)), Ok(empty));
}

#[test]
fn a_timeout_of_zero_does_not_survive_the_round_trip() {
    let mut pipeline = full_pipeline();
    assert!(pipeline.is_well_formed());
    pipeline.steps[1].timeout = Some(0);
    assert!(!pipeline.is_well_formed());
    assert!(!pipeline.steps[1].is_well_formed());
    assert_eq!(
        decode(&encode(&pipeline)),
        Err(fault(Problem::NotPositive, Some(1), None, Field::Timeout))
    );
}

#[test]
fn get_finds_present_fields_only() {
    let node = dict(vec![("a", text("1")), ("b", Node::Null), ("a", text("2"))]);
    assert_eq!(node.get("a"), Some(&text("1")));
    assert_eq!(node.get("b"), None);
    assert_eq!(node.get("c"), None);
    assert_eq!(text("a").get("a"), None);
    assert_eq!(Node::List(vec![text("a")]).get("a"), None);
}
