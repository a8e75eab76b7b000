use aiken_tooling::docs::to_breadcrumbs;

#[test]
fn to_breadcrumbs_test() {
    // Pages
    assert_eq!(to_breadcrumbs("a.html"), ".");
    assert_eq!(to_breadcrumbs("/a.html"), ".");
    assert_eq!(to_breadcrumbs("/a/b.html"), "..");
    assert_eq!(to_breadcrumbs("/a/b/c.html"), "../..");

    // Modules
    assert_eq!(to_breadcrumbs("a"), ".");
    assert_eq!(to_breadcrumbs("a/b"), "..");
    assert_eq!(to_breadcrumbs("a/b/c"), "../..");
}

#[test]
fn breadcrumbs_count_the_slashes_after_the_first_character() {
    assert_eq!(to_breadcrumbs(""), ".");
    assert_eq!(to_breadcrumbs("/"), ".");
    assert_eq!(to_breadcrumbs("//"), "..");
    assert_eq!(to_breadcrumbs("//a"), "..");
    assert_eq!(to_breadcrumbs("a/"), "..");
    assert_eq!(to_breadcrumbs("a//b"), "../..");
    assert_eq!(to_breadcrumbs("aiken/collection/dict"), "../..");
    assert_eq!(to_breadcrumbs("a/b/c/d/e"), "../../../..");
}
