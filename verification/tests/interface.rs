use libherald::interface::messages::{MessagesEmitter, MessagesList, MessagesSignal};
use libherald::interface::users::UsersList;
use libherald::interface::{
    to_c_int, to_usize, COption, ConfigEmitter, ConfigSignal, ContactsList, NetworkHandleEmitter, NetworkHandleSignal,
};
use libherald::signal::ModelCall;

#[test]
fn signals_reach_the_qobject_until_it_is_cleared() {
    let mut e = MessagesEmitter::new(42);
    e.is_empty_changed();
    e.last_body_changed();
    let mut c = e.clone();
    c.new_data_ready();
    let p = e.take_pending();
    assert_eq!(p.len(), 2);
    assert_eq!(p[0].qobject, 42);
    assert_eq!(p[0].signal, MessagesSignal::IsEmptyChanged);
    assert_eq!(p[1].signal, MessagesSignal::LastBodyChanged);
    assert_eq!(e.take_pending().len(), 0);
    let q = c.take_pending();
    assert_eq!(q.len(), 1);
    assert_eq!(q[0].signal, MessagesSignal::NewDataReady);
    e.clear();
    c.new_data_ready();
    e.last_time_changed();
    assert_eq!(c.take_pending().len(), 0);
    assert_eq!(e.take_pending().len(), 0);
}

#[test]
fn a_null_qobject_hears_nothing() {
    let mut e = ConfigEmitter::new(0);
    e.name_changed();
    assert_eq!(e.take_pending().len(), 0);
    let mut e = ConfigEmitter::new(7);
    e.color_changed();
    let p = e.take_pending();
    assert_eq!(p.len(), 1);
    assert_eq!(p[0].signal, ConfigSignal::ColorChanged);
}

#[test]
fn list_models_queue_their_calls() {
    let mut l = MessagesList::new(5);
    l.begin_insert_rows(0, 2);
    l.end_insert_rows();
    l.data_changed(1, 1);
    assert_eq!(l.qobject(), 5);
    let calls = l.take_calls();
    assert_eq!(
        calls,
        vec![
            ModelCall::BeginInsertRows { first: 0, last: 2 },
            ModelCall::EndInsertRows,
            ModelCall::DataChanged { first: 1, last: 1 },
        ]
    );
    assert!(l.take_calls().is_empty());
    let mut u = UsersList::new(0);
    u.begin_reset_model();
    assert!(u.take_calls().is_empty());
    let mut c = ContactsList::new(0);
    c.layout_changed();
    assert_eq!(c.take_calls(), vec![ModelCall::LayoutChanged]);
}

#[test]
fn c_options_carry_their_payload() {
    let c = COption::from_option(Some(5u32));
    assert_eq!(c.into(), Some(5));
    let n: COption<u32> = COption::from_option(None);
    assert_eq!(n.into(), None);
}

#[test]
fn counts_cross_to_and_from_c() {
    assert_eq!(to_usize(12), 12usize);
    assert_eq!(to_c_int(7), 7i32);
    assert_eq!(to_usize(0), 0usize);
}

#[test]
fn the_network_handle_signals_new_members_data() {
    let mut e = NetworkHandleEmitter::new(9);
    let mut handler = e.clone();
    handler.members_data_changed();
    let p = handler.take_pending();
    assert_eq!(p.len(), 1);
    assert_eq!(p[0].qobject, 9);
    assert_eq!(p[0].signal, NetworkHandleSignal::MembersDataChanged);
    assert_eq!(e.take_pending().len(), 0);
}
