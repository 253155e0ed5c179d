use script_context::{fixtures, Fixture};

#[test]
fn should_join_to_left_on_file() {
    let name = "name";
    let contents = "contents";
    let fixture = Fixture::File {
        name: String::from(name),
        contents: contents.to_owned(),
    };
    let parent = "parent".to_string();
    let fixture = fixture.join_to_left(parent.to_owned());
    let expected = Fixture::File {
        name: String::from(parent + "/" + name),
        contents: contents.to_owned(),
    };
    assert_eq!(fixture, expected);
}

#[test]
fn should_join_to_left_on_directory() {
    let name = "name";
    let fixture = Fixture::Directory {
        name: String::from(name),
        fixtures: vec![],
    };
    let parent = "parent".to_string();
    let fixture = fixture.join_to_left(parent.to_owned());
    let expected = Fixture::Directory {
        name: String::from(parent + "/" + name),
        fixtures: vec![],
    };
    assert_eq!(fixture, expected);
}

#[test]
fn should_prepend_names_correctly() {
    let fixture = Fixture::Directory {
        name: "first".into(),
        fixtures: vec![
            Fixture::File {
                name: "second".into(),
                contents: "".into(),
            },
            Fixture::Directory {
                name: "third".into(),
                fixtures: vec![Fixture::File {
                    name: "fourth".into(),
                    contents: "".into(),
                }],
            },
        ],
    };

    let result = fixture.to_files();

    let expected: Vec<(String, String)> = vec![
        ("first/second".into(), "".into()),
        ("first/third/fourth".into(), "".into()),
    ];

    assert_eq!(result, expected);
}

#[test]
fn should_allow_key_value_pair() {
    let result = fixtures("one", "two");
    let expected = vec![("one", "two")];
    assert_eq!(result, expected);
}

#[test]
fn join_to_right_appends_to_the_name() {
    let fixture = Fixture::File {
        name: "dir".to_string(),
        contents: "x".to_string(),
    };
    let expected = Fixture::File {
        name: "dir/file".to_string(),
        contents: "x".to_string(),
    };
    assert_eq!(fixture.join_to_right("file".to_string()), expected);
}

#[test]
fn join_keeps_a_single_separator_and_absolute_paths() {
    let fixture = Fixture::File {
        name: "name".to_string(),
        contents: String::new(),
    };
    let joined = fixture.join_to_left("parent/".to_string());
    assert_eq!(
        joined,
        Fixture::File {
            name: "parent/name".to_string(),
            contents: String::new()
        }
    );
    let absolute = Fixture::File {
        name: "/abs".to_string(),
        contents: String::new(),
    };
    assert_eq!(
        absolute.join_to_left("parent".to_string()),
        Fixture::File {
            name: "/abs".to_string(),
            contents: String::new()
        }
    );
}

#[test]
fn to_files_of_a_single_file() {
    let fixture = Fixture::File {
        name: "a.txt".to_string(),
        contents: "hello".to_string(),
    };
    assert_eq!(
        fixture.to_files(),
        vec![("a.txt".to_string(), "hello".to_string())]
    );
}

#[test]
fn to_files_of_an_empty_directory() {
    let fixture = Fixture::Directory {
        name: "empty".to_string(),
        fixtures: vec![],
    };
    assert_eq!(fixture.to_files(), Vec::<(String, String)>::new());
}
