use download::{Dl, DlStatus, Plan, Source, Transfer};
use std::path::PathBuf;

fn source() -> Source {
    Source::parse("https://example.net/asset.bin").unwrap()
}

fn planned(plan: Plan) -> Transfer {
    match plan {
        Plan::Fetch(transfer) => transfer,
        Plan::Skip(status) => panic!("nothing is fetched: {:?}", status),
    }
}

#[test]
fn it_works() {
}

#[test]
fn absent_destination_is_downloaded() {
    let to = PathBuf::from("asset.bin");
    let mut dl = Dl::new();
    let transfer = planned(dl.download(&source(), to.clone(), false));
    assert!(!transfer.replaces());
    assert_eq!(transfer.location(), &to);
    assert_eq!(dl.receive(b"hello"), 5);
    assert_eq!(dl.body(), b"hello");
    let written = dl.body().len();
    assert_eq!(
        transfer.finish(written),
        DlStatus::Downloaded { location: to, num_bytes: 5 }
    );
}

#[test]
fn existing_destination_is_kept() {
    let to = PathBuf::from("asset.bin");
    let mut disk: Vec<u8> = b"old".to_vec();
    let mut requests: usize = 0;
    let mut dl = Dl::new().overwrite(false);
    match dl.download(&source(), to.clone(), true) {
        Plan::Skip(status) => assert_eq!(status, DlStatus::FileExists(to)),
        Plan::Fetch(transfer) => {
            requests += 1;
            dl.receive(b"newdata");
            disk = dl.body().to_vec();
            transfer.finish(disk.len());
        }
    }
    assert_eq!(requests, 0);
    assert_eq!(disk, b"old");
    assert_eq!(dl.body(), b"");
}

#[test]
fn existing_destination_is_replaced() {
    let to = PathBuf::from("asset.bin");
    let mut disk: Vec<u8> = b"old".to_vec();
    let mut requests: usize = 0;
    let mut dl = Dl::new().overwrite(true);
    let status = match dl.download(&source(), to.clone(), true) {
        Plan::Skip(status) => status,
        Plan::Fetch(transfer) => {
            requests += 1;
            assert!(transfer.replaces());
            dl.receive(b"newdata");
            disk = dl.body().to_vec();
            transfer.finish(disk.len())
        }
    };
    assert_eq!(requests, 1);
    assert_eq!(status, DlStatus::Replaced { location: to, num_bytes: 7 });
    assert_eq!(disk, b"newdata");
}

#[test]
fn absent_destination_ignores_the_overwrite_flag() {
    let to = PathBuf::from("fresh.bin");
    for overwrite in [false, true] {
        let mut dl = Dl::new().overwrite(overwrite);
        let transfer = planned(dl.download(&source(), to.clone(), false));
        assert!(!transfer.replaces());
        assert_eq!(
            transfer.finish(0),
            DlStatus::Downloaded { location: to.clone(), num_bytes: 0 }
        );
    }
}

#[test]
fn chunks_are_kept_in_arrival_order() {
    let mut dl = Dl::new();
    planned(dl.download(&source(), PathBuf::from("a"), false));
    assert_eq!(dl.receive(b"ab"), 2);
    assert_eq!(dl.receive(b""), 0);
    assert_eq!(dl.receive(b"cde"), 3);
    assert_eq!(dl.body(), b"abcde");
}

#[test]
fn second_transfer_does_not_see_the_first() {
    let mut dl = Dl::new().overwrite(true);
    let first = planned(dl.download(&source(), PathBuf::from("a"), false));
    dl.receive(b"first body");
    assert_eq!(
        first.finish(dl.body().len()),
        DlStatus::Downloaded { location: PathBuf::from("a"), num_bytes: 10 }
    );
    let second = planned(dl.download(&source(), PathBuf::from("b"), true));
    assert_eq!(dl.body(), b"");
    dl.receive(b"2nd");
    assert_eq!(dl.body(), b"2nd");
    assert_eq!(
        second.finish(dl.body().len()),
        DlStatus::Replaced { location: PathBuf::from("b"), num_bytes: 3 }
    );
}

#[test]
fn skipped_transfer_empties_the_buffer_too() {
    let mut dl = Dl::new();
    planned(dl.download(&source(), PathBuf::from("a"), false));
    dl.receive(b"stale");
    let plan = dl.download(&source(), PathBuf::from("a"), true);
    assert_eq!(plan, Plan::Skip(DlStatus::FileExists(PathBuf::from("a"))));
    assert_eq!(dl.body(), b"");
}

#[test]
fn verbose_changes_the_request_only() {
    let to = PathBuf::from("asset.bin");
    for exists in [false, true] {
        for overwrite in [false, true] {
            let mut quiet = Dl::new().overwrite(overwrite).verbose(false);
            let mut loud = Dl::new().overwrite(overwrite).verbose(true);
            let q = quiet.download(&source(), to.clone(), exists);
            let l = loud.download(&source(), to.clone(), exists);
            match (q, l) {
                (Plan::Skip(a), Plan::Skip(b)) => assert_eq!(a, b),
                (Plan::Fetch(a), Plan::Fetch(b)) => {
                    assert!(!a.request().verbose);
                    assert!(b.request().verbose);
                    assert_eq!(a.request().url, b.request().url);
                    assert_eq!(a.request().headers, b.request().headers);
                    quiet.receive(b"xyz");
                    loud.receive(b"xyz");
                    assert_eq!(quiet.body(), loud.body());
                    assert_eq!(a.finish(3), b.finish(3));
                }
                (a, b) => panic!("the plans differ: {:?} and {:?}", a, b),
            }
        }
    }
}

#[test]
fn builders_set_one_flag_each() {
    assert_eq!(Dl::new(), Dl::new().overwrite(false).verbose(false));
    assert_ne!(Dl::new(), Dl::new().overwrite(true));
    assert_ne!(Dl::new(), Dl::new().verbose(true));
    assert_ne!(Dl::new().overwrite(true), Dl::new().verbose(true));
    assert_eq!(
        Dl::new().overwrite(true).verbose(true),
        Dl::new().verbose(true).overwrite(true)
    );
    assert_eq!(Dl::new().overwrite(true).overwrite(false), Dl::new());
}

#[test]
fn byte_count_is_what_the_write_reported() {
    let mut dl = Dl::new();
    let transfer = planned(dl.download(&source(), PathBuf::from("a"), false));
    dl.receive(b"hello");
    assert_eq!(
        transfer.finish(3),
        DlStatus::Downloaded { location: PathBuf::from("a"), num_bytes: 3 }
    );
}

#[test]
fn flags_are_read_back() {
    let dl = Dl::new();
    assert!(!dl.overwrites());
    assert!(!dl.is_verbose());
    let dl = dl.overwrite(true);
    assert!(dl.overwrites());
    assert!(!dl.is_verbose());
    let dl = dl.verbose(true).overwrite(false);
    assert!(!dl.overwrites());
    assert!(dl.is_verbose());
}

#[test]
fn flags_outlast_a_transfer() {
    let mut dl = Dl::new().overwrite(true).verbose(true);
    planned(dl.download(&source(), PathBuf::from("a"), true));
    dl.receive(b"body");
    assert!(dl.overwrites());
    assert!(dl.is_verbose());
}
