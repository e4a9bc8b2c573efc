use mars::repo::first_repo_root;
use mars::repo::is_servo_repo_root;

fn strings(v: &[&str]) -> Vec<String> {
    v.iter().map(|s| s.to_string()).collect()
}

#[test]
fn marker_file_identifies_the_root() {
    assert!(is_servo_repo_root(&strings(&["README.md", "servobuild.example", "ports"])));
    assert!(!is_servo_repo_root(&strings(&["README.md", "ports"])));
    assert!(!is_servo_repo_root(&strings(&[])));
    assert!(!is_servo_repo_root(&strings(&["servobuild"])));
}

#[test]
fn innermost_root_wins() {
    let chain = vec![
        strings(&["src"]),
        strings(&["servobuild.example"]),
        strings(&["servobuild.example", "etc"]),
    ];
    assert_eq!(first_repo_root(&chain), Some(1));
}

#[test]
fn no_root_anywhere() {
    let chain = vec![strings(&["src"]), strings(&["home"]), strings(&[])];
    assert_eq!(first_repo_root(&chain), None);
}
