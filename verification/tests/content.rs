use press::paths::{
    active_navigation_path, carbon_path, component_path, image_path, image_target, listing_path,
    navigation_path,
};
use press::reply::Reply;
use press::tree::{build_tree, FsEntry};

#[test]
fn content_paths() {
    assert_eq!(carbon_path("../root", "blog/post"), "../root/blog/post.md");
    assert_eq!(component_path("../root", "nav.js"), "../root/component/nav.js");
    assert_eq!(navigation_path("/srv", "menu.json"), "/srv/navigation/menu.json");
    assert_eq!(active_navigation_path("/srv"), "/srv/navigation/default.vue");
    assert_eq!(image_path("/srv", "cat.png"), "/srv/images/cat.png");
    assert_eq!(listing_path("/srv", "docs"), "/srv/docs");
}

#[test]
fn content_paths_with_empty_tail() {
    assert_eq!(carbon_path("r", ""), "r/.md");
    assert_eq!(listing_path("r", ""), "r/");
    assert_eq!(component_path("", ""), "/component/");
}

#[test]
fn replies() {
    let denied = Reply::unauthorized();
    assert_eq!(denied.status, 401);
    assert_eq!(denied.body, "Unauthorized!");
    let found = Reply::file(Some("body".to_string()), Some("application/javascript"));
    assert_eq!(found.status, 200);
    assert_eq!(found.body, "body");
    assert_eq!(found.content_type.as_deref(), Some("application/javascript"));
    let page = Reply::file(Some("# hi".to_string()), None);
    assert!(page.content_type.is_none());
    let missing = Reply::file(None, Some("application/json"));
    assert_eq!(missing.status, 404);
    assert_eq!(missing.body, "Not found.");
    assert!(missing.content_type.is_none());
    assert_eq!(Reply::written(true).status, 200);
    assert_eq!(Reply::written(false).status, 500);
    assert_eq!(Reply::written(false).body, "");
    assert_eq!(Reply::uploaded().body, "Image(s) uploaded successfully!");
    let listing = Reply::json(Some("[]".to_string()));
    assert_eq!(listing.status, 200);
    assert_eq!(listing.content_type.as_deref(), Some("application/json"));
    assert_eq!(Reply::json(None).status, 500);
    let text = Reply::text("{}".to_string());
    assert_eq!(text.status, 200);
    assert_eq!(text.body, "{}");
}

fn file(path: &str) -> FsEntry {
    FsEntry { path: path.to_string(), is_dir: false, entries: vec![] }
}

#[test]
fn tree_lists_names_relative_paths_and_children() {
    let entry = FsEntry {
        path: "../root/docs".to_string(),
        is_dir: true,
        entries: vec![
            file("../root/docs/a.md"),
            FsEntry { path: "../root/docs/sub".to_string(), is_dir: true, entries: vec![] },
        ],
    };
    let node = build_tree(&entry, "../root");
    assert_eq!(node.name, "docs");
    assert_eq!(node.path, "docs");
    assert!(node.is_dir);
    let children = node.children.unwrap();
    assert_eq!(children.len(), 2);
    assert_eq!(children[0].name, "a.md");
    assert_eq!(children[0].path, "docs/a.md");
    assert!(!children[0].is_dir);
    assert!(children[0].children.is_none());
    assert_eq!(children[1].name, "sub");
    assert_eq!(children[1].path, "docs/sub");
    assert_eq!(children[1].children.as_ref().unwrap().len(), 0);
}

#[test]
fn tree_keeps_path_outside_root() {
    let node = build_tree(&file("/elsewhere/x.txt"), "../root");
    assert_eq!(node.name, "x.txt");
    assert_eq!(node.path, "/elsewhere/x.txt");
    assert!(node.children.is_none());
}

#[test]
fn tree_of_root_path_has_empty_name() {
    let node = build_tree(&FsEntry { path: "/".to_string(), is_dir: true, entries: vec![] }, "/");
    assert_eq!(node.name, "");
    assert_eq!(node.path, "");
    assert_eq!(node.children.unwrap().len(), 0);
}

#[test]
fn every_path_begins_with_the_root_text() {
    let root = "/srv/site";
    for tail in ["", "a", "deep/er"] {
        for path in [
            carbon_path(root, tail),
            component_path(root, tail),
            navigation_path(root, tail),
            image_path(root, tail),
            listing_path(root, tail),
            active_navigation_path(root),
        ] {
            assert!(path.starts_with("/srv/site/"), "{}", path);
        }
    }
}

#[test]
fn parent_components_in_the_tail_are_kept() {
    assert_eq!(carbon_path("/srv/site", "../../etc/passwd"), "/srv/site/../../etc/passwd.md");
    assert_eq!(image_path("/srv/site", "../x.png"), "/srv/site/images/../x.png");
}

#[test]
fn image_target_needs_a_file_name() {
    assert_eq!(image_target("/srv", Some("cat.png")).as_deref(), Some("/srv/images/cat.png"));
    assert!(image_target("/srv", None).is_none());
}
