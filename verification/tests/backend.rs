use branch_browser::backend::{branch_names, EncodingError};
use branch_browser::state::App;

fn named(name: &str) -> Option<String> {
    Some(name.to_string())
}

#[test]
fn branch_names_of_no_branches() {
    assert_eq!(branch_names(&Vec::new()), Ok(Vec::new()));
}

#[test]
fn branch_names_keeps_names_and_order() {
    let enumerated = vec![named("main"), named("dev"), named("feature-x"), named("dev")];
    assert_eq!(
        branch_names(&enumerated),
        Ok(vec![
            "main".to_string(),
            "dev".to_string(),
            "feature-x".to_string(),
            "dev".to_string()
        ])
    );
}

#[test]
fn branch_names_fails_on_a_branch_without_name() {
    assert_eq!(branch_names(&vec![None]), Err(EncodingError { row: 0 }));
    assert_eq!(
        branch_names(&vec![named("main"), named("dev"), None]),
        Err(EncodingError { row: 2 })
    );
}

#[test]
fn branch_names_points_at_the_first_branch_without_name() {
    let enumerated = vec![named("main"), None, named("dev"), None];
    assert_eq!(branch_names(&enumerated), Err(EncodingError { row: 1 }));
}

#[test]
fn branch_names_feed_init() {
    let enumerated = vec![named("main"), named("dev")];
    let names = branch_names(&enumerated).unwrap();
    let app = App::init(names);
    assert_eq!(app.branches(), &vec!["main".to_string(), "dev".to_string()]);
    assert_eq!(app.cursor_index(), 0);
}
