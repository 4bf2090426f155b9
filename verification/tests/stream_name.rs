use bigquery_storage::stream_name::{StreamName, DEFAULT_STREAM};

fn name(project: &str, dataset: &str, table: &str, stream: &str) -> StreamName {
    StreamName::new(
        project.to_string(),
        dataset.to_string(),
        table.to_string(),
        stream.to_string(),
    )
}

#[test]
fn stream_name_renders_its_path() {
    assert_eq!(
        name("proj", "data", "tab", "s1").to_string(),
        "projects/proj/datasets/data/tables/tab/streams/s1"
    );
}

#[test]
fn stream_name_path_for_many_names() {
    let parts = ["a", "my-project", "x_y", "0", "über", "with space"];
    for p in parts {
        for d in parts {
            for t in parts {
                for s in parts {
                    assert_eq!(
                        name(p, d, t, s).to_string(),
                        format!("projects/{}/datasets/{}/tables/{}/streams/{}", p, d, t, s)
                    );
                }
            }
        }
    }
}

#[test]
fn default_stream_is_named_default() {
    assert_eq!(DEFAULT_STREAM, "_default");
    let default =
        StreamName::new_default("p".to_string(), "d".to_string(), "actor".to_string());
    assert_eq!(default.to_string(), "projects/p/datasets/d/tables/actor/streams/_default");
    assert_eq!(default, name("p", "d", "actor", "_default"));
}

#[test]
fn empty_names_are_rendered_as_they_are() {
    assert_eq!(name("", "", "", "").to_string(), "projects//datasets//tables//streams/");
}

#[test]
fn path_is_longer_than_the_names_by_the_headings() {
    let path = name("pp", "ddd", "t", "ssss").to_string();
    assert_eq!(path.chars().count(), 36 + 2 + 3 + 1 + 4);
}
