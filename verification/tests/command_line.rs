use ncc::{decide, interpret, usage, Command, Parsed, Rectangle};

fn args(list: &[&str]) -> Vec<String> {
    list.iter().map(|s| s.to_string()).collect()
}

fn compare(first: &str, second: &str, region: Option<Rectangle>) -> Command {
    Command::Compare { first: first.to_string(), second: second.to_string(), region }
}

#[test]
fn two_files_ask_for_a_full_comparison() {
    assert_eq!(interpret(&args(&["ncc", "a.png", "b.png"])), compare("a.png", "b.png", None));
}

#[test]
fn subimage_option_gives_the_region() {
    let r = Rectangle { x: 1, y: 1, width: 1, height: 1 };
    assert_eq!(
        interpret(&args(&["ncc", "-s", "1 1 1 1", "a.png", "b.png"])),
        compare("a.png", "b.png", Some(r))
    );
    assert_eq!(
        interpret(&args(&["ncc", "a.png", "--subimage", "1 1 1 1", "b.png"])),
        compare("a.png", "b.png", Some(r))
    );
    assert_eq!(
        interpret(&args(&["ncc", "a.png", "b.png", "--subimage=0 5 20 10"])),
        compare("a.png", "b.png", Some(Rectangle { x: 0, y: 5, width: 20, height: 10 }))
    );
}

#[test]
fn help_asks_for_the_usage_text() {
    assert_eq!(interpret(&args(&["ncc", "-h"])), Command::Usage);
    assert_eq!(interpret(&args(&["ncc", "-h", "a.png", "b.png"])), Command::Usage);
    assert_eq!(interpret(&args(&["ncc", "a.png", "b.png", "--help"])), Command::Usage);
}

#[test]
fn too_few_or_too_many_files_ask_for_the_usage_text() {
    assert_eq!(interpret(&args(&[])), Command::Usage);
    assert_eq!(interpret(&args(&["ncc"])), Command::Usage);
    assert_eq!(interpret(&args(&["ncc", "a.png"])), Command::Usage);
    assert_eq!(interpret(&args(&["ncc", "a.png", "b.png", "c.png"])), Command::Usage);
    assert_eq!(interpret(&args(&["ncc", "-s", "1 1 1 1", "a.png"])), Command::Usage);
}

#[test]
fn malformed_region_asks_for_the_usage_text() {
    assert_eq!(interpret(&args(&["ncc", "-s", "1 1 1", "a.png", "b.png"])), Command::Usage);
    assert_eq!(interpret(&args(&["ncc", "-s", "1 1 1 x", "a.png", "b.png"])), Command::Usage);
    assert_eq!(interpret(&args(&["ncc", "-s", "1", "1", "1", "1", "a.png"])), Command::Usage);
}

#[test]
fn refused_command_line_asks_for_the_usage_text() {
    assert_eq!(interpret(&args(&["ncc", "-x", "a.png", "b.png"])), Command::Usage);
    assert_eq!(interpret(&args(&["ncc", "a.png", "b.png", "-s"])), Command::Usage);
    assert_eq!(
        interpret(&args(&["ncc", "-s", "1 1 1 1", "-s", "2 2 2 2", "a.png", "b.png"])),
        Command::Usage
    );
}

#[test]
fn decision_on_parsed_values() {
    let free = args(&["a", "b"]);
    let parsed = |help: bool, sub: Option<&str>, free: &Vec<String>| Parsed {
        help,
        subimage: sub.map(|s| s.to_string()),
        free: free.clone(),
    };
    assert_eq!(decide(&parsed(false, None, &free)), compare("a", "b", None));
    assert_eq!(decide(&parsed(true, None, &free)), Command::Usage);
    assert_eq!(decide(&parsed(false, Some("1 2 3"), &free)), Command::Usage);
    assert_eq!(
        decide(&parsed(false, Some("1 2 3 4"), &free)),
        compare("a", "b", Some(Rectangle { x: 1, y: 2, width: 3, height: 4 }))
    );
    assert_eq!(decide(&parsed(false, None, &args(&["a"]))), Command::Usage);
    assert_eq!(decide(&parsed(false, None, &args(&["a", "b", "c"]))), Command::Usage);
    assert_eq!(decide(&parsed(false, None, &args(&[]))), Command::Usage);
}

#[test]
fn usage_text_names_the_program_and_the_options() {
    let text = usage("ncc");
    assert!(text.starts_with("Usage: ncc FILE1 FILE2 [options]\n\nOptions:\n"));
    assert!(text.contains("-h, --help"));
    assert!(text.contains("print this help menu"));
    assert!(text.contains("-s, --subimage x y width height"));
    assert!(text.contains("only compare a subregion of the image"));
    assert!(text.ends_with("\n"));
}
