use planif::task_scheduler::{root_folder, split_task_path};

#[test]
fn path_with_folder_and_name() {
    assert_eq!(
        split_task_path("\\Test folder\\TimeTaskName"),
        ("\\Test folder", "TimeTaskName")
    );
    assert_eq!(split_task_path("\\a\\b\\c"), ("\\a\\b", "c"));
    assert_eq!(split_task_path("a\\b"), ("a", "b"));
}

#[test]
fn path_in_the_root_folder() {
    assert_eq!(root_folder(), "\\");
    assert_eq!(split_task_path("TimeTaskName"), ("\\", "TimeTaskName"));
    assert_eq!(split_task_path("\\TimeTaskName"), ("\\", "TimeTaskName"));
    assert_eq!(split_task_path(""), ("\\", ""));
    assert_eq!(split_task_path("\\"), ("\\", ""));
}

#[test]
fn path_that_ends_in_a_separator() {
    assert_eq!(split_task_path("\\folder\\"), ("\\folder", ""));
}

#[test]
fn path_with_wide_characters() {
    assert_eq!(split_task_path("\\Täsks\\Zeitplan ⏰"), ("\\Täsks", "Zeitplan ⏰"));
}
