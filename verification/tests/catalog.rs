use icon_viewer::catalog::{load, Row, CATALOG_LEN, ICON_NAMES};

#[test]
fn catalog_has_275_rows() {
    assert_eq!(CATALOG_LEN, 275);
    assert_eq!(ICON_NAMES.len(), 275);
    assert_eq!(load().len(), 275);
}

#[test]
fn catalog_rows_follow_the_order_of_the_names() {
    let rows = load();
    for (index, row) in rows.iter().enumerate() {
        assert_eq!(row.icon_id, ICON_NAMES[index]);
        assert_eq!(row.label, ICON_NAMES[index]);
    }
}

#[test]
fn catalog_labels_equal_icon_ids() {
    for row in load() {
        assert_eq!(row.icon_id, row.label);
        assert!(!row.icon_id.is_empty());
    }
}

#[test]
fn catalog_first_and_last_rows() {
    let rows = load();
    assert_eq!(rows[0].icon_id, "application-exit");
    assert_eq!(rows[0].label, "application-exit");
    assert_eq!(rows[1].icon_id, "appointment-new");
    assert_eq!(rows[273].icon_id, "weather-snow");
    assert_eq!(rows[274].icon_id, "weather-storm");
    assert_eq!(rows[274].label, "weather-storm");
}

#[test]
fn catalog_rows_at_known_positions() {
    let rows = load();
    assert_eq!(rows[10].icon_id, "document-print-preview");
    assert_eq!(rows[13].icon_id, "document-save");
    assert_eq!(rows[13].label, "document-save");
    assert_eq!(rows[14].icon_id, "document-save-as");
    assert_eq!(rows[17].icon_id, "edit-copy");
    assert_eq!(rows[20].icon_id, "edit-find");
    assert_eq!(rows[100].icon_id, "zoom-out");
    assert_eq!(rows[101].icon_id, "accessories-character-map");
    assert_eq!(rows[200].icon_id, "text-x-generic");
}

#[test]
fn catalog_holds_document_save_once_at_13() {
    let positions: Vec<usize> = load()
        .iter()
        .enumerate()
        .filter(|(_, row)| row.icon_id == "document-save")
        .map(|(index, _)| index)
        .collect();
    assert_eq!(positions, vec![13]);
}

#[test]
fn catalog_names_are_distinct() {
    let rows = load();
    for i in 0..rows.len() {
        for j in (i + 1)..rows.len() {
            assert_ne!(rows[i].icon_id, rows[j].icon_id);
        }
    }
}

#[test]
fn load_gives_the_same_rows_every_time() {
    let first = load();
    let second = load();
    let third = load();
    assert_eq!(first, second);
    assert_eq!(second, third);
}

#[test]
fn row_clone_keeps_both_fields() {
    let row = Row { icon_id: String::from("folder-open"), label: String::from("Open folder") };
    let copy = row.clone();
    assert_eq!(copy, row);
    assert_eq!(copy.icon_id, "folder-open");
    assert_eq!(copy.label, "Open folder");
}

#[test]
fn rows_differ_when_a_field_differs() {
    let a = Row { icon_id: String::from("go-up"), label: String::from("go-up") };
    let b = Row { icon_id: String::from("go-up"), label: String::from("Up") };
    let c = Row { icon_id: String::from("go-down"), label: String::from("go-up") };
    assert_ne!(a, b);
    assert_ne!(a, c);
    assert_eq!(a, a.clone());
}
