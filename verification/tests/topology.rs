use trance::topology::{parse_custom_layouts, DisplayTopologyMap, OutputLayout};

#[test]
fn test_parse_custom_layouts_empty() {
    let map = parse_custom_layouts("");
    assert!(map.is_empty());
}

#[test]
fn test_parse_custom_layouts_valid() {
    let map = parse_custom_layouts("1:100,200,800,600,2;2:0,0,1920,1080,1");
    assert_eq!(map.len(), 2);
    let ov1 = map.get(&1).unwrap();
    assert_eq!(ov1.x, Some(100));
    assert_eq!(ov1.y, Some(200));
    assert_eq!(ov1.w, Some(800));
    assert_eq!(ov1.h, Some(600));
    assert_eq!(ov1.scale, Some(2));

    let ov2 = map.get(&2).unwrap();
    assert_eq!(ov2.x, Some(0));
    assert_eq!(ov2.y, Some(0));
    assert_eq!(ov2.w, Some(1920));
    assert_eq!(ov2.h, Some(1080));
    assert_eq!(ov2.scale, Some(1));
}

#[test]
fn custom_layout_partial_and_bad_values() {
    let map = parse_custom_layouts("3:10,x; bad ;4:1,2; 5 :1,1");
    let ov3 = map.get(&3).unwrap();
    assert_eq!(ov3.x, Some(10));
    assert_eq!(ov3.y, None);
    assert_eq!(ov3.w, None);
    let ov4 = map.get(&4).unwrap();
    assert_eq!((ov4.x, ov4.y, ov4.w), (Some(1), Some(2), None));
    assert_eq!(map.len(), 2);
}

fn out(id: u32, x: i32, w: u32) -> OutputLayout {
    OutputLayout { id, x, y: 0, width: w, height: 1080, scale: 1, refresh_rate_hz: 60 }
}

#[test]
fn topology_applies_overrides_and_independence() {
    let layouts = vec![out(1, 0, 1920), out(2, 1920, 1280)];
    let t = DisplayTopologyMap::build(&layouts, Some("1"), Some("2:5,6,700,500,2"));
    assert!(t.independent_rendering);
    assert_eq!(t.monitors.len(), 2);
    assert_eq!(t.monitors[0].x, 0);
    assert_eq!(t.monitors[1].x, 5);
    assert_eq!(t.monitors[1].y, 6);
    assert_eq!(t.monitors[1].width, 700);
    assert_eq!(t.monitors[1].height, 500);
    assert_eq!(t.monitors[1].scale, 2);
    let u = DisplayTopologyMap::build(&layouts, None, None);
    assert!(!u.independent_rendering);
    assert_eq!(u.monitors[1].width, 1280);
}
