use std::collections::HashMap;

use ctru::error::Error;
use ctru::services::reference::ServiceCounter;
use ctru::services::romfs::RomFS;

fn mount_ok() -> Result<(), Error> {
    Ok(())
}

#[test]
fn romfs_counter() {
    let mut counter = ServiceCounter::new();
    let _romfs = RomFS::init(&mut counter, mount_ok, || {}).unwrap();
    let value = counter.count();

    assert_eq!(value, 1);

    _romfs.drop_with(&mut counter, || {});

    let value = counter.count();

    assert_eq!(value, 0);
}

#[test]
fn construct_hash_map() {
    let mut input = vec![
        (1_i32, String::from("123")),
        (2, String::from("2")),
        (6, String::from("six")),
    ];

    let map: HashMap<i32, String> = HashMap::from_iter(input.clone());

    let mut actual: Vec<_> = map.into_iter().collect();

    input.sort();
    actual.sort();

    assert_eq!(input, actual);
}

use ctru::services::gfx::Gfx;
use ctru::services::soc::Soc;

#[test]
fn gfx_duplicate() {
    // A `Gfx` already exists, as the console's test runner builds one.
    let mut counter = ServiceCounter::new();
    let _runner_gfx = Gfx::init(&mut counter, |_, _, _| {}, || {}).unwrap();
    assert!(matches!(Gfx::init(&mut counter, |_, _, _| {}, || {}), Err(Error::ServiceAlreadyActive)))
}

#[test]
fn gfx_gfx_duplicate() {
    let mut counter = ServiceCounter::new();
    let _gfx = Gfx::new(&mut counter, |_, _, _| {}, || {}).unwrap();

    assert!(matches!(Gfx::new(&mut counter, |_, _, _| {}, || {}), Err(Error::ServiceAlreadyActive)));
}

#[test]
fn soc_duplicate() {
    let mut counter = ServiceCounter::new();
    let _soc = Soc::new(&mut counter, |_| Ok(()), || {}).unwrap();

    assert!(matches!(Soc::new(&mut counter, |_| Ok(()), || {}), Err(Error::ServiceAlreadyActive)))
}
