use treeview::path::TreePath;
use treeview::store::{
    build_left_store, build_right_store, child_label, hello_label, picture_label,
    populate_picture_pane, push_decimal, text_row_with_children, TOP_LEVEL_ROWS,
};
use treeview::sync::{sync_selection, sync_target, ListSelection};

fn path(indices: &[usize]) -> TreePath {
    TreePath::from_indices(indices.to_vec())
}

#[test]
fn hello_labels_in_decimal() {
    assert_eq!(hello_label(0), "Hello 0");
    assert_eq!(hello_label(7), "Hello 7");
    assert_eq!(hello_label(42), "Hello 42");
    assert_eq!(hello_label(100), "Hello 100");
    assert_eq!(hello_label(usize::MAX), format!("Hello {}", usize::MAX));
}

#[test]
fn push_decimal_appends() {
    let mut s = String::from("n=");
    push_decimal(&mut s, 9050);
    assert_eq!(s, "n=9050");
}

#[test]
fn fixed_labels() {
    assert_eq!(child_label(), "I'm a child node");
    assert_eq!(picture_label(), "I'm a child node with an image");
}

#[test]
fn text_row_children() {
    let row = text_row_with_children(String::from("top"), 3);
    assert_eq!(row.label, "top");
    assert_eq!(row.children.len(), 3);
    for c in &row.children {
        assert_eq!(c.label, "I'm a child node");
        assert!(c.children.is_empty());
    }
    assert!(text_row_with_children(String::from("leaf"), 0).children.is_empty());
}

#[test]
fn left_store_row_i_has_i_children() {
    let rows = build_left_store();
    assert_eq!(rows.len(), TOP_LEVEL_ROWS);
    assert_eq!(rows.len(), 10);
    for (i, row) in rows.iter().enumerate() {
        assert_eq!(row.children.len(), i);
        for c in &row.children {
            assert_eq!(c.label, "I'm a child node");
            assert!(c.children.is_empty());
        }
    }
}

#[test]
fn left_store_labels() {
    let rows = build_left_store();
    for (i, row) in rows.iter().enumerate() {
        assert_eq!(row.label, format!("Hello {}", i));
    }
    assert_eq!(rows[0].label, "Hello 0");
    assert_eq!(rows[9].label, "Hello 9");
}

#[test]
fn right_store_with_image() {
    let rows = build_right_store(&Some(String::from("eye")));
    assert_eq!(rows.len(), 10);
    for row in &rows {
        assert_eq!(row.label, "I'm a child node with an image");
        assert_eq!(row.icon.as_deref(), Some("eye"));
    }
}

#[test]
fn right_store_without_image() {
    let rows = build_right_store::<u32>(&None);
    assert_eq!(rows.len(), 10);
    for row in &rows {
        assert_eq!(row.label, "I'm a child node with an image");
        assert!(row.icon.is_none());
    }
}

#[test]
fn picture_pane_loaded_image() {
    let pane = populate_picture_pane::<u32>(Ok(7));
    assert!(pane.error_dialog.is_none());
    assert_eq!(pane.rows.len(), 10);
    assert!(pane.rows.iter().all(|r| r.icon == Some(7)));
}

#[test]
fn picture_pane_failed_load_shows_one_dialog() {
    let msg = String::from("resource at './eye.png' does not exist");
    let pane = populate_picture_pane::<u32>(Err(msg.clone()));
    assert_eq!(pane.error_dialog, Some(msg));
    assert_eq!(pane.rows.len(), 10);
    for row in &pane.rows {
        assert!(row.icon.is_none());
        assert_eq!(row.label, "I'm a child node with an image");
    }
}

#[test]
fn path_basics() {
    let mut p = path(&[2, 5, 1]);
    assert_eq!(p.depth(), 3);
    assert_eq!(p.index_at(1), 5);
    assert!(p.up());
    assert_eq!(p, path(&[2, 5]));
    let mut e = path(&[]);
    assert!(!e.up());
    assert_eq!(e.depth(), 0);
    assert_eq!(TreePath::top_level(4), path(&[4]));
}

#[test]
fn ascend_depth_one_is_unchanged() {
    let mut p = path(&[3]);
    p.ascend_to_top();
    assert_eq!(p, path(&[3]));
    p.ascend_to_top();
    assert_eq!(p, path(&[3]));
}

#[test]
fn ascend_reaches_depth_one() {
    for depth in 1..8usize {
        let indices: Vec<usize> = (0..depth).map(|k| k + 5).collect();
        let mut p = TreePath::from_indices(indices);
        p.ascend_to_top();
        assert_eq!(p.depth(), 1);
        assert_eq!(p, path(&[5]));
    }
    let mut e = path(&[]);
    e.ascend_to_top();
    assert_eq!(e.depth(), 0);
}

#[test]
fn sync_target_values() {
    assert_eq!(sync_target(Some(path(&[6, 3]))), Some(path(&[6])));
    assert_eq!(sync_target(Some(path(&[1]))), Some(path(&[1])));
    assert_eq!(sync_target(Some(path(&[]))), None);
    assert_eq!(sync_target(None), None);
}

#[test]
fn select_fourth_child_of_row_six() {
    let rows = build_left_store();
    assert!(rows[6].children.len() > 3);
    let mut right = ListSelection::new(10);
    sync_selection(Some(path(&[6, 3])), &mut right);
    assert_eq!(right.selected, Some(path(&[6])));
    assert_eq!(right.rows, 10);
}

#[test]
fn no_left_selection_leaves_right_unchanged() {
    let mut right = ListSelection::new(10);
    sync_selection(None, &mut right);
    assert_eq!(right.selected, None);
    sync_selection(Some(path(&[2])), &mut right);
    assert_eq!(right.selected, Some(path(&[2])));
    sync_selection(None, &mut right);
    assert_eq!(right.selected, Some(path(&[2])));
}

#[test]
fn selection_outside_right_list_is_ignored() {
    let mut right = ListSelection::new(5);
    sync_selection(Some(path(&[1, 0])), &mut right);
    assert_eq!(right.selected, Some(path(&[1])));
    sync_selection(Some(path(&[7, 2])), &mut right);
    assert_eq!(right.selected, Some(path(&[1])));
    right.select_path(path(&[0, 0]));
    assert_eq!(right.selected, Some(path(&[1])));
    right.select_path(path(&[4]));
    assert_eq!(right.selected, Some(path(&[4])));
}
