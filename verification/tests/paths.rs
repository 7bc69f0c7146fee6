use db2_exporter::download_task::DownloadTask;
use db2_exporter::entities::Build;

#[test]
fn path_and_url_of_a_task() {
    let build = Build::new("11.0.5", 57212);
    let task = DownloadTask::new("Achievement".to_string(), build, "ruRU".to_string());
    assert_eq!(task.output_path(), "11.0.5.57212/ruRU/Achievement.csv");
    assert_eq!(
        task.url("https://wago.tools/db2"),
        "https://wago.tools/db2/Achievement/csv?build=11.0.5.57212&locale=ruRU"
    );
}

#[test]
fn full_version_joins_version_and_number() {
    assert_eq!(Build::new("11.0.5", 57212).format_full_version(), "11.0.5.57212");
    assert_eq!(Build::new("1.0", 0).format_full_version(), "1.0.0");
    assert_eq!(Build::new("", 4294967295).format_full_version(), ".4294967295");
}

#[test]
fn folder_of_a_task() {
    let task = DownloadTask::new(
        "Achievement_Category".to_string(),
        Build::new("11.0.5", 57212),
        "enUS".to_string(),
    );
    assert_eq!(task.folder_path(), "11.0.5.57212/enUS");
    assert_eq!(task.output_path(), "11.0.5.57212/enUS/Achievement_Category.csv");
    assert_eq!(task.clone(), task);
}
