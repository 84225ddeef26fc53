use naui_core::TreeItem;

fn sample() -> Vec<TreeItem> {
    vec![
        TreeItem::new("src")
            .expanded(true)
            .children(vec![TreeItem::new("main.rs"), TreeItem::new("lib.rs")]),
        TreeItem::new("docs").child(TreeItem::new("README.md")),
        TreeItem::new("target")
            .enabled(false)
            .child(TreeItem::new("debug")),
    ]
}

#[test]
fn tree_item_defaults() {
    let item = TreeItem::new("src");
    assert_eq!(item.label, "src");
    assert_eq!(item.detail, None);
    assert!(item.enabled);
    assert!(!item.expanded, "既定では閉じていること");
    assert!(item.is_leaf());
    assert_eq!(TreeItem::from("src"), item);
    assert_eq!(TreeItem::from(String::from("src")), item);
}

#[test]
fn builders_keep_the_other_fields() {
    let item = TreeItem::new("src")
        .detail("3 ファイル")
        .enabled(false)
        .expanded(true)
        .child("main.rs".into());
    assert_eq!(item.detail.as_deref(), Some("3 ファイル"));
    assert!(!item.enabled);
    assert!(item.expanded);
    assert_eq!(item.children.len(), 1);
    assert!(!item.is_leaf());
}

#[test]
fn at_walks_down_the_path() {
    let items = sample();
    assert_eq!(TreeItem::at(&items, &[0]).unwrap().label, "src");
    assert_eq!(TreeItem::at(&items, &[0, 1]).unwrap().label, "lib.rs");
    assert_eq!(TreeItem::at(&items, &[1, 0]).unwrap().label, "README.md");
    assert!(TreeItem::at(&items, &[]).is_none());
    assert!(TreeItem::at(&items, &[3]).is_none());
    assert!(TreeItem::at(&items, &[0, 0, 0]).is_none());
}

#[test]
fn count_includes_descendants() {
    assert_eq!(TreeItem::count(&sample()), 7);
    assert_eq!(TreeItem::count(&[]), 0);
}

#[test]
fn selectable_requires_every_ancestor() {
    let items = sample();
    assert!(TreeItem::selectable(&items, &[0]));
    assert!(TreeItem::selectable(&items, &[0, 0]));
    assert!(!TreeItem::selectable(&items, &[2]), "無効な枝は選べない");
    assert!(
        !TreeItem::selectable(&items, &[2, 0]),
        "無効な枝の中身も選べない"
    );
    assert!(!TreeItem::selectable(&items, &[]), "空のパスは何も指さない");
    assert!(!TreeItem::selectable(&items, &[9]));
}

#[test]
fn walk_visits_parents_before_children() {
    let mut seen: Vec<Vec<usize>> = Vec::new();
    TreeItem::walk(&sample(), |path, _| seen.push(path.to_vec()));
    assert_eq!(
        seen,
        vec![
            vec![0],
            vec![0, 0],
            vec![0, 1],
            vec![1],
            vec![1, 0],
            vec![2],
            vec![2, 0],
        ]
    );
}

#[test]
fn visible_follows_the_expansion() {
    let items = sample();
    assert_eq!(
        TreeItem::visible(&items, |_| false),
        vec![vec![0], vec![1], vec![2]]
    );
    assert_eq!(
        TreeItem::visible(&items, |path| path == [0]),
        vec![vec![0], vec![0, 0], vec![0, 1], vec![1], vec![2]]
    );
    assert_eq!(
        TreeItem::visible(&items, |path| path == [1, 0]),
        vec![vec![0], vec![1], vec![2]]
    );
}

// Cases of this library's own.

#[test]
fn walk_passes_each_item_with_its_path() {
    let mut seen: Vec<(Vec<usize>, String)> = Vec::new();
    let items = vec![TreeItem::new("親").child(TreeItem::new("子")), TreeItem::new("隣")];
    TreeItem::walk(&items, |path, item| seen.push((path.to_vec(), item.label.clone())));
    assert_eq!(
        seen,
        vec![
            (vec![0], "親".to_string()),
            (vec![0, 0], "子".to_string()),
            (vec![1], "隣".to_string()),
        ]
    );
}

#[test]
fn visible_asks_only_about_shown_branches() {
    let items = sample();
    let mut asked = Vec::new();
    let shown = TreeItem::visible(&items, |path| {
        asked.push(path.to_vec());
        true
    });
    assert_eq!(
        shown,
        vec![vec![0], vec![0, 0], vec![0, 1], vec![1], vec![1, 0], vec![2], vec![2, 0]]
    );
    assert_eq!(asked, vec![vec![0], vec![1], vec![2]]);
    assert_eq!(TreeItem::visible(&[], |_| true), Vec::<Vec<usize>>::new());
}

#[test]
fn deep_paths_and_counts() {
    let items = vec![TreeItem::new("a").child(TreeItem::new("b").child(TreeItem::new("c").enabled(false)))];
    assert_eq!(TreeItem::count(&items), 3);
    assert_eq!(TreeItem::at(&items, &[0, 0, 0]).unwrap().label, "c");
    assert!(TreeItem::selectable(&items, &[0, 0]));
    assert!(!TreeItem::selectable(&items, &[0, 0, 0]));
    assert!(!TreeItem::selectable(&items, &[0, 1]));
    let labels: Vec<String> = TreeItem::list(&["x", "y"]).into_iter().map(|i| i.label).collect();
    assert_eq!(labels, ["x", "y"]);
    assert_eq!(TreeItem::default(), TreeItem::new("").enabled(false));
}

#[test]
fn tree_items_convert_from_text() {
    assert_eq!(TreeItem::from("src"), TreeItem::new("src"));
    assert_eq!(TreeItem::from(String::from("src")), TreeItem::new("src"));
}

#[test]
fn walk_passes_each_item_with_the_path_that_names_it() {
    let items = vec![
        TreeItem::new("a").children(vec![TreeItem::new("b"), TreeItem::new("c").child(TreeItem::new("d"))]),
        TreeItem::new("e"),
    ];
    let mut calls = 0;
    TreeItem::walk(&items, |path, item| {
        assert_eq!(TreeItem::at(&items, path), Some(item));
        calls += 1;
    });
    assert_eq!(calls, TreeItem::count(&items));
}
