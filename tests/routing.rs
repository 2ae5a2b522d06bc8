use catenary::{dispatch_pointer_moved, route_pointer, Handle, HandleState, Point};

fn pt(x: f32, y: f32) -> Point {
    Point::new(x.to_bits(), y.to_bits())
}

fn still(x: f32, y: f32) -> Handle {
    Handle::new(pt(x, y), (0, 0, 0))
}

fn selected(x: f32, y: f32) -> Handle {
    let mut h = still(x, y);
    h.apply_mouse_moved(pt(x, y), 0.0f32.to_bits(), false);
    h.apply_mouse_moved(pt(x, y), 0.0f32.to_bits(), true);
    h
}

fn bits(ds: &[f32]) -> Vec<u32> {
    ds.iter().map(|d| d.to_bits()).collect()
}

#[test]
fn no_anchors_no_route() {
    let hs: Vec<Handle> = Vec::new();
    assert_eq!(route_pointer(&hs, &Vec::new()), None);
}

#[test]
fn nearest_anchor_gets_the_event() {
    let hs = vec![still(-100.0, 0.0), still(100.0, 0.0), still(0.0, 50.0)];
    assert_eq!(route_pointer(&hs, &bits(&[120.0, 80.0, 60.0])), Some(2));
    assert_eq!(route_pointer(&hs, &bits(&[3.5, 80.0, 60.0])), Some(0));
}

#[test]
fn first_of_equally_near_anchors_wins() {
    let hs = vec![still(-1.0, 0.0), still(1.0, 0.0), still(1.0, 0.0)];
    assert_eq!(route_pointer(&hs, &bits(&[2.0, 1.0, 1.0])), Some(1));
}

#[test]
fn selected_anchor_gets_the_event_even_when_far() {
    let hs = vec![still(0.0, 0.0), selected(500.0, 0.0), selected(600.0, 0.0)];
    assert_eq!(route_pointer(&hs, &bits(&[0.0, 500.0, 600.0])), Some(1));
}

#[test]
fn dispatch_moves_only_the_routed_anchor() {
    let mut hs = vec![still(-100.0, 0.0), still(100.0, 0.0)];
    let r = dispatch_pointer_moved(&mut hs, pt(98.0, 0.0), &bits(&[198.0, 2.0]), false);
    assert_eq!(r, Some(1));
    assert_eq!(hs[0].state(), HandleState::Still);
    assert_eq!(hs[1].state(), HandleState::Hover);

    let r = dispatch_pointer_moved(&mut hs, pt(98.0, 0.0), &bits(&[198.0, 2.0]), true);
    assert_eq!(r, Some(1));
    assert_eq!(hs[1].state(), HandleState::Selected);
    assert_eq!(hs[1].pos(), pt(98.0, 0.0));

    let r = dispatch_pointer_moved(&mut hs, pt(-90.0, 0.0), &bits(&[10.0, 188.0]), true);
    assert_eq!(r, Some(1));
    assert_eq!(hs[1].pos(), pt(-90.0, 0.0));
    assert_eq!(hs[0].pos(), pt(-100.0, 0.0));
    assert_eq!(hs[0].state(), HandleState::Still);
}

#[test]
fn dispatch_on_no_anchors_changes_nothing() {
    let mut hs: Vec<Handle> = Vec::new();
    assert_eq!(dispatch_pointer_moved(&mut hs, pt(0.0, 0.0), &Vec::new(), true), None);
    assert!(hs.is_empty());
}
