use deps_status::status::Status;

#[test]
fn out_of_date_dominates_every_status() {
    assert_eq!(Status::OutOfDate.join(Status::OutOfDate), Status::OutOfDate);
    assert_eq!(Status::OutOfDate.join(Status::Unknown), Status::OutOfDate);
    assert_eq!(Status::OutOfDate.join(Status::UpToDate), Status::OutOfDate);
    assert_eq!(Status::Unknown.join(Status::OutOfDate), Status::OutOfDate);
    assert_eq!(Status::UpToDate.join(Status::OutOfDate), Status::OutOfDate);
}

#[test]
fn unknown_dominates_up_to_date() {
    assert_eq!(Status::Unknown.join(Status::UpToDate), Status::Unknown);
    assert_eq!(Status::UpToDate.join(Status::Unknown), Status::Unknown);
    assert_eq!(Status::Unknown.join(Status::Unknown), Status::Unknown);
}

#[test]
fn up_to_date_only_from_up_to_date() {
    assert_eq!(Status::UpToDate.join(Status::UpToDate), Status::UpToDate);
}

#[test]
fn join_is_order_independent() {
    let all = [Status::OutOfDate, Status::UpToDate, Status::Unknown];
    for a in all {
        for b in all {
            assert_eq!(a.join(b), b.join(a));
            for c in all {
                assert_eq!(a.join(b).join(c), a.join(b.join(c)));
            }
        }
    }
}

#[test]
fn labels_name_the_assets() {
    assert_eq!(Status::OutOfDate.label(), "outofdate");
    assert_eq!(Status::UpToDate.label(), "uptodate");
    assert_eq!(Status::Unknown.label(), "unknown");
}
