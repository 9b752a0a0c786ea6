use surface_coordinator::id::{window_node_id, A11yId, Id, IdEq, Ids, Internal};
use surface_coordinator::window;

#[test]
fn unique_generates_different_ids() {
    let mut ids = Ids::new();
    let a = Id::unique(&mut ids);
    let b = Id::unique(&mut ids);

    assert_ne!(a, b);
}

#[test]
fn widget_ids_count_up_from_one() {
    let mut ids = Ids::new();
    assert_eq!(Id::unique(&mut ids), Id(Internal::Unique(1)));
    assert_eq!(Id::next(&mut ids), 2);
    assert_eq!(Id::new(&mut ids, String::from("save")), Id(Internal::Custom(3, String::from("save"))));
    Id::reset(&mut ids);
    assert_eq!(Id::unique(&mut ids), Id(Internal::Unique(1)));
}

#[test]
fn widget_counter_wraps_around() {
    let mut ids = Ids { next_id: u64::MAX, next_window_id: 1 };
    assert_eq!(Id::next(&mut ids), u64::MAX);
    assert_eq!(Id::next(&mut ids), 0);
}

#[test]
fn window_node_ids_lie_above_the_widget_ids() {
    let mut ids = Ids::new();
    let first = window_node_id(&mut ids);
    let second = window_node_id(&mut ids);
    assert_eq!(first, 4294967296);
    assert_eq!(second, 4294967297);
    assert!(first < second);
    let widget = Id::unique(&mut ids).into_number();
    assert_eq!(widget, 1);
    assert_ne!(first, widget);
    assert_eq!(A11yId::from_node_id(first), A11yId::Window(first));
    assert_eq!(A11yId::from_node_id(widget), A11yId::Widget(Id(Internal::Unique(1))));
    assert_eq!(A11yId::from_node_id(4294967295), A11yId::Widget(Id(Internal::Unique(4294967295))));
}

#[test]
fn node_ids_go_there_and_back() {
    assert_eq!(A11yId::from_window(77).node_id(), 77);
    assert_eq!(A11yId::from_widget(Id::from_number(5)).node_id(), 5);
    let custom = Id(Internal::Custom(9, String::from("ok")));
    assert_eq!(A11yId::from_widget(custom).node_id(), 9);
}

#[test]
fn custom_ids_are_the_same_by_name() {
    let a = Internal::Custom(1, String::from("a"));
    let a2 = Internal::Custom(2, String::from("a"));
    let b = Internal::Custom(1, String::from("b"));
    assert_eq!(a, a2);
    assert_ne!(a, b);
    assert_ne!(Internal::Unique(1), a);
    assert_eq!(Internal::Unique(1), Internal::Unique(1));
    assert_eq!(
        Internal::IdSet(vec![Internal::Unique(1), a.clone()]),
        Internal::IdSet(vec![Internal::Unique(1), a2.clone()])
    );
    assert_ne!(
        Internal::IdSet(vec![Internal::Unique(1)]),
        Internal::IdSet(vec![Internal::Unique(1), a2])
    );
}

#[test]
fn ids_name_the_same_widget_by_number_or_name() {
    let a = Internal::Custom(1, String::from("a"));
    let b = Internal::Custom(1, String::from("b"));
    let c = Internal::Custom(2, String::from("b"));
    assert!(IdEq::eq(&a, &b));
    assert!(IdEq::eq(&b, &c));
    assert!(!IdEq::eq(&a, &c));
    assert!(IdEq::eq(&Internal::Unique(2), &c));
    assert!(IdEq::eq(&c, &Internal::Unique(2)));
    assert!(!IdEq::eq(&Internal::Unique(3), &c));
    let set = Internal::IdSet(vec![Internal::Unique(7), Internal::Custom(8, String::from("x"))]);
    assert!(IdEq::eq(&set, &Internal::Unique(7)));
    assert!(IdEq::eq(&Internal::Custom(1, String::from("x")), &set));
    assert!(!IdEq::eq(&set, &Internal::Unique(8)));
    assert!(IdEq::eq(&set, &set.clone()));
    assert!(IdEq::eq(&Id(Internal::Unique(2)), &Id(c)));
    assert!(IdEq::eq(&A11yId::Window(3), &A11yId::Window(3)));
    assert!(!IdEq::eq(&A11yId::Window(3), &A11yId::Widget(Id(Internal::Unique(3)))));
}

#[test]
fn ids_have_names() {
    assert_eq!(Id(Internal::Unique(4)).to_string(), "Undefined");
    assert_eq!(Id(Internal::Custom(4, String::from("menu"))).to_string(), "menu");
    assert_eq!(Id(Internal::IdSet(vec![])).to_string(), "Set");
}

#[test]
fn window_ids_skip_zero_and_grow() {
    let mut counter = window::Counter::new();
    let a = window::Id::unique(&mut counter);
    let b = window::Id::unique(&mut counter);
    assert_eq!(a, window::Id(1));
    assert_eq!(b, window::Id(2));
    let mut wrapped = window::Counter { next: 0 };
    assert_eq!(window::Id::unique(&mut wrapped), window::Id(1));
    assert_eq!(wrapped.next, 2);
    let mut last = window::Counter { next: u64::MAX };
    assert_eq!(window::Id::unique(&mut last), window::Id(u64::MAX));
    assert_eq!(window::Id::unique(&mut last), window::Id(1));
    assert_eq!(window::Id::none(), window::Id(0));
}
