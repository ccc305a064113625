use ceresdb_client::PointBuilder;
use ceresdb_client::ValueBuilder;
use ceresdb_client::WriteRequest;
use ceresdb_client::WriteResponse;

fn point_for(table: &str, ts: i64) -> ceresdb_client::Point {
    let vb = ValueBuilder::new();
    let mut b = PointBuilder::new(String::from(table));
    b.set_timestamp(ts);
    b.set_field(String::from("usage"), vb.int32(1));
    b.build().expect("a valid point must build")
}

#[test]
fn write_request_accumulates_points_in_order() {
    let mut req = WriteRequest::new();
    assert_eq!(req.points().len(), 0);
    req.add_point(point_for("cpu", 1));
    req.add_point(point_for("mem", 2));
    assert_eq!(req.points().len(), 2);
    assert_eq!(req.points()[0].table(), "cpu");
    assert_eq!(req.points()[1].table(), "mem");
}

#[test]
fn add_points_behaves_like_repeated_add_point() {
    let mut one_by_one = WriteRequest::new();
    one_by_one.add_point(point_for("a", 1));
    one_by_one.add_point(point_for("b", 2));
    one_by_one.add_point(point_for("c", 3));

    let mut batched = WriteRequest::new();
    batched.add_point(point_for("a", 1));
    batched.add_points(vec![point_for("b", 2), point_for("c", 3)]);

    assert_eq!(one_by_one.points().len(), batched.points().len());
    for (p, q) in one_by_one.points().iter().zip(batched.points().iter()) {
        assert_eq!(p, q);
    }
}

#[test]
fn write_response_reports_exact_counts_repeatedly() {
    let resp = WriteResponse::new(3, 1);
    assert_eq!(resp.get_success(), 3);
    assert_eq!(resp.get_failed(), 1);
    // Accessors are pure: call order and repetition change nothing.
    assert_eq!(resp.get_failed(), 1);
    assert_eq!(resp.get_success(), 3);
    assert_eq!(resp.get_success(), 3);
}

#[test]
fn write_response_zero_counts() {
    let resp = WriteResponse::new(0, 0);
    assert_eq!(resp.get_success(), 0);
    assert_eq!(resp.get_failed(), 0);
}
