use term_player::layout::{panes, Area};

#[test]
fn panes_split_a_normal_terminal() {
    let p = panes(Area { x: 0, y: 0, width: 100, height: 50 }).unwrap();
    assert_eq!(p.files, Area { x: 1, y: 1, width: 29, height: 48 });
    assert_eq!(p.status, Area { x: 31, y: 2, width: 67, height: 9 });
    assert_eq!(p.body, Area { x: 31, y: 11, width: 67, height: 37 });
}

#[test]
fn panes_refuse_an_area_too_large_to_cut() {
    assert!(panes(Area { x: 0, y: 0, width: 1000, height: 50 }).is_none());
    assert!(panes(Area { x: 65000, y: 0, width: 1000, height: 50 }).is_none());
}
