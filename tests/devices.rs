use flasher::device::{
    collect_disks, devices_from_listing, DeviceInfo, Listing, ListingNode, ProbeError,
};

fn node(name: &str, kind: Option<&str>, model: Option<&str>, size: Option<u64>, children: Vec<ListingNode>) -> ListingNode {
    ListingNode {
        name: name.to_string(),
        size,
        kind: kind.map(|k| k.to_string()),
        model: model.map(|m| m.to_string()),
        children,
    }
}

fn paths(devs: &[DeviceInfo]) -> Vec<String> {
    devs.iter().map(|d| d.path.clone()).collect()
}

#[test]
fn disk_node_becomes_device() {
    let n = node("sda", Some("disk"), Some("Samsung SSD"), Some(512110190592), vec![]);
    let mut out = Vec::new();
    collect_disks(&n, &mut out);
    assert_eq!(out.len(), 1);
    assert_eq!(out[0].path, "/dev/sda");
    assert_eq!(out[0].pretty, "Samsung SSD");
    assert_eq!(out[0].size, 512110190592);
}

#[test]
fn missing_model_and_size_fall_back() {
    let n = node("vdb", Some("disk"), None, None, vec![]);
    let mut out = Vec::new();
    collect_disks(&n, &mut out);
    assert_eq!(out.len(), 1);
    assert_eq!(out[0].path, "/dev/vdb");
    assert_eq!(out[0].pretty, "disk");
    assert_eq!(out[0].size, 0);
}

#[test]
fn collect_appends_after_existing() {
    let n = node("sdb", Some("disk"), None, Some(1), vec![]);
    let mut out = vec![DeviceInfo { path: "/dev/x".to_string(), pretty: "x".to_string(), size: 9 }];
    collect_disks(&n, &mut out);
    assert_eq!(paths(&out), vec!["/dev/x", "/dev/sdb"]);
}

#[test]
fn nested_disks_in_depth_first_order() {
    let tree = Listing {
        blockdevices: vec![
            node("loop0", Some("loop"), None, Some(4096), vec![]),
            node(
                "sda",
                Some("disk"),
                Some("A"),
                Some(100),
                vec![
                    node("sda1", Some("part"), None, Some(50), vec![
                        node("inner", Some("disk"), None, Some(10), vec![]),
                    ]),
                    node("sda2", Some("part"), None, Some(50), vec![]),
                ],
            ),
            node("md0", Some("raid1"), None, None, vec![
                node("nvme0n1", Some("disk"), Some("B"), Some(200), vec![]),
            ]),
            node("sdc", Some("disk"), None, Some(300), vec![]),
        ],
    };
    let devs = devices_from_listing(true, Some(tree)).unwrap();
    assert_eq!(paths(&devs), vec!["/dev/sda", "/dev/inner", "/dev/nvme0n1", "/dev/sdc"]);
    assert_eq!(devs[2].pretty, "B");
    assert_eq!(devs[2].size, 200);
}

#[test]
fn listing_without_disks_is_empty_not_error() {
    let tree = Listing {
        blockdevices: vec![
            node("loop0", Some("loop"), None, Some(4096), vec![]),
            node("sr0", Some("rom"), None, None, vec![node("x", None, None, None, vec![])]),
        ],
    };
    let r = devices_from_listing(true, Some(tree));
    assert!(matches!(r, Ok(ref v) if v.is_empty()));
    let empty = devices_from_listing(true, Some(Listing { blockdevices: vec![] }));
    assert!(matches!(empty, Ok(ref v) if v.is_empty()));
}

#[test]
fn type_tag_must_be_exactly_disk() {
    let tree = Listing {
        blockdevices: vec![
            node("a", Some("Disk"), None, None, vec![]),
            node("b", Some("disks"), None, None, vec![]),
            node("c", None, None, None, vec![]),
        ],
    };
    let r = devices_from_listing(true, Some(tree)).unwrap();
    assert!(r.is_empty());
}

#[test]
fn failed_tool_is_external_tool_error() {
    let tree = Listing { blockdevices: vec![node("sda", Some("disk"), None, None, vec![])] };
    assert!(matches!(devices_from_listing(false, Some(tree)), Err(ProbeError::ExternalTool)));
    assert!(matches!(devices_from_listing(false, None), Err(ProbeError::ExternalTool)));
}

#[test]
fn unparsable_output_is_parse_error() {
    assert!(matches!(devices_from_listing(true, None), Err(ProbeError::Parse)));
}
