use letter_maker::filenames::get_unique_filename;

fn names(list: &[&str]) -> Vec<String> {
    list.iter().map(|s| s.to_string()).collect()
}

#[test]
fn free_name_is_kept() {
    let existing: Vec<String> = Vec::new();
    assert_eq!(get_unique_filename("output.txt", &existing), "output.txt");
}

#[test]
fn taken_name_gets_counter_before_extension() {
    let existing = names(&["output.txt"]);
    assert_eq!(get_unique_filename("output.txt", &existing), "output1.txt");
}

#[test]
fn counter_skips_all_taken_names() {
    let existing = names(&["output.txt", "output1.txt"]);
    assert_eq!(get_unique_filename("output.txt", &existing), "output2.txt");
}

#[test]
fn unrelated_names_do_not_matter() {
    let existing = names(&["output1.txt", "other.txt"]);
    assert_eq!(get_unique_filename("output.txt", &existing), "output.txt");
}

#[test]
fn name_without_extension_gets_counter_at_end() {
    let existing = names(&["out"]);
    assert_eq!(get_unique_filename("out", &existing), "out1");
}

#[test]
fn leading_dot_is_not_an_extension() {
    let existing = names(&[".hidden"]);
    assert_eq!(get_unique_filename(".hidden", &existing), ".hidden1");
}

#[test]
fn counter_goes_before_last_extension_only() {
    let existing = names(&["a.b.c"]);
    assert_eq!(get_unique_filename("a.b.c", &existing), "a.b1.c");
}

#[test]
fn counter_reaches_two_digits() {
    let mut existing = vec!["output.txt".to_string()];
    for i in 1..=10 {
        existing.push(format!("output{}.txt", i));
    }
    assert_eq!(get_unique_filename("output.txt", &existing), "output11.txt");
}

#[test]
fn empty_extension_after_dot() {
    let existing = names(&["a."]);
    assert_eq!(get_unique_filename("a.", &existing), "a1.");
}
