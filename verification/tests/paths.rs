use c2pa_testfile_maker::error::PipelineError;
use c2pa_testfile_maker::paths::{determine_output_path, resolve_path, select_output_path};

#[test]
fn an_output_that_is_no_directory_is_taken_as_it_is() {
    assert_eq!(determine_output_path("in/Dog.jpg", "out/signed.jpg", false).unwrap(), "out/signed.jpg");
    assert_eq!(determine_output_path("..", "out.jpg", false).unwrap(), "out.jpg");
    assert_eq!(determine_output_path("", "", false).unwrap(), "");
}

#[test]
fn an_output_directory_takes_the_file_name_of_the_input() {
    assert_eq!(determine_output_path("in/Dog.jpg", "out", true).unwrap(), "out/Dog.jpg");
    assert_eq!(determine_output_path("/abs/in/Dog.png", "out/", true).unwrap(), "out/Dog.png");
    assert_eq!(determine_output_path("Dog.webp", "/tmp/out", true).unwrap(), "/tmp/out/Dog.webp");
    assert_eq!(determine_output_path("in/dir/", "out", true).unwrap(), "out/dir");
}

#[test]
fn an_input_without_a_file_name_has_no_place_in_a_directory() {
    for input in ["..", "/", "in/..", ""] {
        match determine_output_path(input, "out", true) {
            Err(PipelineError::NoFileName { path }) => assert_eq!(path, input),
            other => panic!("{:?} for {:?}", other, input),
        }
    }
    let error = determine_output_path("..", "out", true).unwrap_err();
    assert_eq!(error.describe(), "Input file has no filename: ..");
}

#[test]
fn the_choice_between_output_and_joined_path() {
    let joined = Some("out/Dog.jpg".to_string());
    assert_eq!(select_output_path("out", true, "Dog.jpg", joined.clone()).unwrap(), "out/Dog.jpg");
    assert_eq!(select_output_path("out", false, "Dog.jpg", joined).unwrap(), "out");
    assert_eq!(select_output_path("out", false, "Dog.jpg", None).unwrap(), "out");
    assert!(matches!(
        select_output_path("out", true, "..", None),
        Err(PipelineError::NoFileName { path }) if path == ".."
    ));
}

#[test]
fn a_relative_path_is_looked_for_below_the_base() {
    assert_eq!(resolve_path("base", "a.jpg"), "base/a.jpg");
    assert_eq!(resolve_path("base/dir/", "sub/a.jpg"), "base/dir/sub/a.jpg");
    assert_eq!(resolve_path("", "a.jpg"), "a.jpg");
}

#[test]
fn an_absolute_path_is_looked_for_where_it_says() {
    assert_eq!(resolve_path("base", "/abs/a.jpg"), "/abs/a.jpg");
    assert_eq!(resolve_path("/base", "/a.jpg"), "/a.jpg");
}
