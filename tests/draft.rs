use crud_api::draft::{into_insert_draft, unset_primary_key, ActiveValue, InsertDraft};

#[test]
fn draft_assigns_every_value() {
    let d = into_insert_draft(vec![10, 20, 30]);
    assert_eq!(
        d.columns,
        vec![ActiveValue::Assigned(10), ActiveValue::Assigned(20), ActiveValue::Assigned(30)]
    );
    assert_eq!(into_insert_draft(Vec::<u8>::new()).columns, vec![]);
}

#[test]
fn unset_single_key_column() {
    let mut d = into_insert_draft(vec![5, 6, 7]);
    unset_primary_key(&mut d, &vec![0]);
    assert_eq!(
        d.columns,
        vec![ActiveValue::NotSet, ActiveValue::Assigned(6), ActiveValue::Assigned(7)]
    );
}

#[test]
fn unset_composite_key_columns() {
    let mut d = InsertDraft {
        columns: vec![
            ActiveValue::Assigned("a"),
            ActiveValue::Unchanged("b"),
            ActiveValue::Assigned("c"),
            ActiveValue::Unchanged("d"),
        ],
    };
    unset_primary_key(&mut d, &vec![3, 1]);
    assert_eq!(
        d.columns,
        vec![
            ActiveValue::Assigned("a"),
            ActiveValue::NotSet,
            ActiveValue::Assigned("c"),
            ActiveValue::NotSet,
        ]
    );
}

#[test]
fn unset_skips_positions_past_the_last_column() {
    let mut d = into_insert_draft(vec![1, 2]);
    unset_primary_key(&mut d, &vec![5, 1, 1]);
    assert_eq!(d.columns, vec![ActiveValue::Assigned(1), ActiveValue::NotSet]);
    let mut e = into_insert_draft(vec![1, 2]);
    unset_primary_key(&mut e, &vec![]);
    assert_eq!(e.columns, vec![ActiveValue::Assigned(1), ActiveValue::Assigned(2)]);
}
