use pony_renderer::fs_utils::choose_random_file;
use std::path::PathBuf;

#[test]
fn a_random_file_is_one_of_the_files() {
    let files = vec![PathBuf::from("a.mp4"), PathBuf::from("b.mp4")];
    let chosen = choose_random_file(&files).unwrap();
    assert!(files.contains(chosen));
    assert!(choose_random_file(&vec![]).is_none());
}
