use gravisim::controls::{Keys, Pan};

#[test]
fn no_key_asks_for_no_pan() {
    assert_eq!(Keys::none().pans(), Vec::<Pan>::new());
}

#[test]
fn each_pan_key_has_its_direction() {
    let mut keys = Keys::none();
    keys.w = true;
    assert_eq!(keys.pans(), vec![Pan::Up]);
    let mut keys = Keys::none();
    keys.s = true;
    assert_eq!(keys.pans(), vec![Pan::Down]);
    let mut keys = Keys::none();
    keys.a = true;
    assert_eq!(keys.pans(), vec![Pan::Left]);
    let mut keys = Keys::none();
    keys.d = true;
    assert_eq!(keys.pans(), vec![Pan::Right]);
}

#[test]
fn pans_come_in_the_order_up_down_left_right() {
    let keys = Keys { r: false, h: false, e: false, w: true, a: true, s: true, d: true };
    assert_eq!(keys.pans(), vec![Pan::Up, Pan::Down, Pan::Left, Pan::Right]);
    let keys = Keys { r: true, h: true, e: true, w: false, a: true, s: false, d: true };
    assert_eq!(keys.pans(), vec![Pan::Left, Pan::Right]);
}

#[test]
fn other_keys_ask_for_no_pan() {
    let keys = Keys { r: true, h: true, e: true, w: false, a: false, s: false, d: false };
    assert_eq!(keys.pans(), Vec::<Pan>::new());
}
