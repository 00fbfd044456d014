use std::cell::Cell;
use std::rc::Rc;
use std::time::Duration;

use industrial_io::error::check_status;
use industrial_io::native::native_string;
use industrial_io::timeout::{duration_millis, timeout_millis};
use industrial_io::{Context, Error};

/// Stands for a native context: counts how often it was destroyed.
struct Owner {
    destroyed: Rc<Cell<usize>>,
}

impl Drop for Owner {
    fn drop(&mut self) {
        self.destroyed.set(self.destroyed.get() + 1);
    }
}

fn counter() -> Rc<Cell<usize>> {
    Rc::new(Cell::new(0))
}

fn open(addr: u64, destroyed: &Rc<Cell<usize>>) -> Context<Owner> {
    let d = destroyed.clone();
    Context::from_uri("local:", move |_b: &Vec<u8>| Some((addr, Owner { destroyed: d }))).unwrap()
}

/// A native device table with `n` devices at addresses 100, 101, ...
fn table(n: u32) -> impl Fn(&Owner, u32) -> u64 {
    move |_o: &Owner, i: u32| if i < n { 100 + i as u64 } else { 0 }
}

#[test]
fn from_uri_and_create_from_uri_agree() {
    for uri in ["local:", "xml:/tmp/ctx.xml", "ip:192.168.2.1", "usb:1.2.3", "serial:/dev/ttyUSB0"] {
        let seen_a = Rc::new(Cell::new(Vec::new()));
        let seen_b = Rc::new(Cell::new(Vec::new()));
        let (sa, sb) = (seen_a.clone(), seen_b.clone());
        let a = Context::from_uri(uri, move |b: &Vec<u8>| {
            sa.set(b.clone());
            Some((7u64, ()))
        })
        .unwrap();
        let b = Context::create_from_uri(uri, move |b: &Vec<u8>| {
            sb.set(b.clone());
            Some((7u64, ()))
        })
        .unwrap();
        let mut expected = uri.as_bytes().to_vec();
        expected.push(0);
        assert_eq!(seen_a.take(), expected);
        assert_eq!(seen_b.take(), expected);
        assert_eq!(a.address(), b.address());
    }
    let none_a = Context::<()>::from_uri("ip:nowhere", |_b: &Vec<u8>| None);
    let none_b = Context::<()>::create_from_uri("ip:nowhere", |_b: &Vec<u8>| None);
    assert!(matches!(none_a, Err(Error::System(_))));
    assert!(matches!(none_b, Err(Error::System(_))));
}

#[test]
fn nul_in_string_is_argument_error_without_native_call() {
    let bad = "local:\0x";
    let called = Rc::new(Cell::new(false));
    let c = called.clone();
    let mk = move || {
        let c = c.clone();
        move |_b: &Vec<u8>| {
            c.set(true);
            Some((1u64, ()))
        }
    };
    assert_eq!(Context::from_uri(bad, mk()).err(), Some(Error::Argument));
    assert_eq!(Context::create_from_uri(bad, mk()).err(), Some(Error::Argument));
    assert_eq!(Context::create_network("host\0", mk()).err(), Some(Error::Argument));
    assert_eq!(Context::create_xml("\0file.xml", mk()).err(), Some(Error::Argument));
    let c2 = called.clone();
    let r = Context::create_xml_mem("<context>\0</context>", move |_b: &Vec<u8>, _n: usize| {
        c2.set(true);
        Some((1u64, ()))
    });
    assert_eq!(r.err(), Some(Error::Argument));
    assert!(!called.get());
}

#[test]
fn native_string_appends_terminator() {
    assert_eq!(native_string("ip:h").unwrap(), vec![b'i', b'p', b':', b'h', 0]);
    assert_eq!(native_string("").unwrap(), vec![0]);
    assert_eq!(native_string("a\0"), Err(Error::Argument));
}

#[test]
fn xml_mem_passes_byte_length_without_terminator() {
    let xml = "<context name=\"é\"/>";
    let got = Rc::new(Cell::new((0usize, 0usize)));
    let g = got.clone();
    let ctx = Context::create_xml_mem(xml, move |b: &Vec<u8>, n: usize| {
        g.set((b.len(), n));
        Some((9u64, ()))
    })
    .unwrap();
    assert_eq!(got.get(), (xml.len() + 1, xml.len()));
    assert_eq!(xml.len(), 20);
    assert_eq!(ctx.address(), 9);
}

#[test]
fn creation_failure_is_system_error() {
    assert!(matches!(Context::<()>::new(|| None), Err(Error::System(_))));
    assert!(matches!(Context::<()>::create_local(|| None), Err(Error::System(_))));
    assert!(matches!(Context::<()>::create_network("h", |_b: &Vec<u8>| None), Err(Error::System(_))));
    assert!(matches!(Context::<()>::create_xml("f", |_b: &Vec<u8>| None), Err(Error::System(_))));
    let ctx = Context::new(|| Some((5u64, ()))).unwrap();
    assert_eq!(ctx.address(), 5);
    let local = Context::create_local(|| Some((6u64, ()))).unwrap();
    assert_eq!(local.address(), 6);
}

#[test]
fn last_clone_destroys_once() {
    let destroyed = counter();
    let a = open(1, &destroyed);
    let b = a.clone();
    let c = b.clone();
    drop(b);
    assert_eq!(destroyed.get(), 0);
    drop(a);
    assert_eq!(destroyed.get(), 0);
    c.destroy();
    assert_eq!(destroyed.get(), 1);

    let destroyed = counter();
    let a = open(1, &destroyed);
    let b = a.clone();
    a.destroy();
    assert_eq!(destroyed.get(), 0);
    drop(b);
    assert_eq!(destroyed.get(), 1);
}

#[test]
fn device_keeps_context_alive() {
    let destroyed = counter();
    let ctx = open(42, &destroyed);
    let dev = ctx.get_device(1, table(3)).unwrap();
    drop(ctx);
    assert_eq!(destroyed.get(), 0);
    assert_eq!(dev.address(), 101);
    assert_eq!(dev.context().address(), 42);
    drop(dev);
    assert_eq!(destroyed.get(), 1);
}

#[test]
fn get_device_out_of_range() {
    let destroyed = counter();
    let ctx = open(1, &destroyed);
    let n = ctx.num_devices(|_o: &Owner| 3);
    assert_eq!(n, 3);
    for i in 0..n {
        assert_eq!(ctx.get_device(i, table(3)).unwrap().address(), 100 + i as u64);
    }
    assert!(matches!(ctx.get_device(3, table(3)), Err(Error::Range)));
    assert!(matches!(ctx.get_device(1000, table(3)), Err(Error::Range)));
    let never = |_o: &Owner, _i: u32| -> u64 { panic!("no lookup beyond the native index type") };
    assert!(matches!(ctx.get_device(1usize << 32, never), Err(Error::Range)));
    assert_eq!(Error::Range.message(), "index out of range");
    assert_eq!(Error::Argument.message(), "string holds a NUL byte");
    assert_eq!(Error::System(5).message(), "native call failed");
}

#[test]
fn devices_in_index_order_then_exhausted() {
    let destroyed = counter();
    let ctx = open(1, &destroyed);
    let mut it = ctx.devices();
    let mut got = Vec::new();
    while let Some(d) = it.next(table(4)) {
        got.push(d.address());
    }
    assert_eq!(got, vec![100, 101, 102, 103]);
    let never = |_o: &Owner, _i: u32| -> u64 { panic!("walk has ended") };
    assert!(it.next(never).is_none());
    assert!(it.next(table(10)).is_none());

    let mut empty = ctx.devices();
    assert!(empty.next(table(0)).is_none());
    assert!(empty.next(table(5)).is_none());
}

#[test]
fn set_timeout_millis() {
    let destroyed = counter();
    let mut ctx = open(1, &destroyed);
    let seen = Rc::new(Cell::new(0u32));
    let s = seen.clone();
    ctx.set_timeout(Duration::from_millis(1500), move |_o: &Owner, ms: u32| {
        s.set(ms);
        0
    })
    .unwrap();
    assert_eq!(seen.get(), 1500);
    let s = seen.clone();
    ctx.set_timeout(Duration::from_secs(2), move |_o: &Owner, ms: u32| {
        s.set(ms);
        0
    })
    .unwrap();
    assert_eq!(seen.get(), 2000);
    let r = ctx.set_timeout(Duration::from_millis(10), |_o: &Owner, _ms: u32| -1);
    assert!(matches!(r, Err(Error::System(_))));
    let never = |_o: &Owner, _ms: u32| -> i32 { panic!("no native call for an over-long timeout") };
    let r = ctx.set_timeout(Duration::from_millis(4_294_967_296), never);
    assert_eq!(r, Err(Error::Range));
}

#[test]
fn timeout_conversion() {
    assert_eq!(timeout_millis(1, 500), Some(1500));
    assert_eq!(timeout_millis(2, 0), Some(2000));
    assert_eq!(timeout_millis(0, 0), Some(0));
    assert_eq!(timeout_millis(4_294_967, 295), Some(u32::MAX));
    assert_eq!(timeout_millis(4_294_967, 296), None);
    assert_eq!(timeout_millis(u64::MAX, 999), None);
    assert_eq!(duration_millis(Duration::from_micros(2_999_999)), Some(2999));
    assert_eq!(duration_millis(Duration::ZERO), Some(0));
    assert_eq!(duration_millis(Duration::from_millis(4_294_967_296)), None);
}

#[test]
fn equality_is_identity() {
    let d = counter();
    let a = open(10, &d);
    let b = open(11, &d);
    assert!(a != b);
    assert!(a == a.clone());
    let c = open(10, &d);
    assert!(a == c);
}

#[test]
fn find_device_absent_is_none() {
    let destroyed = counter();
    let ctx = open(1, &destroyed);
    let lookup = |_o: &Owner, b: &Vec<u8>| if b.as_slice() == b"adc0\0" { 77u64 } else { 0 };
    assert!(ctx.find_device("nonexistent", lookup).is_none());
    assert_eq!(ctx.find_device("adc0", lookup).unwrap().address(), 77);
}

#[test]
fn queries_pass_native_values_through() {
    let destroyed = counter();
    let ctx = open(1, &destroyed);
    assert_eq!(ctx.description(|_o: &Owner| None), "");
    assert_eq!(ctx.description(|_o: &Owner| Some(String::from("Linux host"))), "Linux host");
    assert_eq!(ctx.num_attrs(|_o: &Owner| 4), 4);
    assert_eq!(ctx.num_devices(|_o: &Owner| 0), 0);
}

#[test]
fn status_mapping() {
    assert_eq!(check_status(0), Ok(()));
    assert_eq!(check_status(5), Ok(()));
    assert!(matches!(check_status(-22), Err(Error::System(_))));
}
