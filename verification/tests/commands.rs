use image_process::greet;
use image_process::process_image;

#[test]
fn greet_ada() {
    assert_eq!(greet("Ada"), "Hello, Ada! You've been greeted from Rust!");
}

#[test]
fn greet_empty_name() {
    assert_eq!(greet(""), "Hello, ! You've been greeted from Rust!");
}

#[test]
fn greet_contains_name_verbatim() {
    let name = "Grace Hopper";
    let r = greet(name);
    assert!(r.contains(name));
    assert!(r.starts_with("Hello, "));
    assert!(r.ends_with("! You've been greeted from Rust!"));
}

#[test]
fn process_image_concrete_path() {
    assert_eq!(
        process_image("C:/img.png".to_string()),
        Ok("Processing image: C:/img.png".to_string())
    );
}

#[test]
fn process_image_empty_path_succeeds() {
    assert_eq!(
        process_image(String::new()),
        Ok("Processing image: ".to_string())
    );
}

#[test]
fn process_image_nonexistent_path_succeeds() {
    let r = process_image("/no/such/dir/missing.png".to_string());
    assert!(r.is_ok());
    assert!(r.unwrap().contains("/no/such/dir/missing.png"));
}

#[test]
fn repeated_greet_agrees() {
    let first = greet("Ada");
    let second = greet("Ada");
    assert_eq!(first, second);
}

#[test]
fn repeated_process_image_agrees() {
    let first = process_image("a/b.png".to_string());
    let second = process_image("a/b.png".to_string());
    assert_eq!(first, second);
}
