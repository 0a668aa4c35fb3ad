use vstd::prelude::*;

verus! {

/// One physical block device that can be chosen as a target.
pub struct DeviceInfo {
    /// Device node, such as `/dev/sda`.
    pub path: String,
    /// Human label: the device's model, or a generic word when none is known.
    pub pretty: String,
    /// Size in bytes, 0 when unknown.
    pub size: u64,
}

/// The mathematical value of a [`DeviceInfo`].
pub ghost struct DeviceModel {
    pub path: Seq<char>,
    pub pretty: Seq<char>,
    pub size: u64,
}

impl View for DeviceInfo {
    type V = DeviceModel;

    open spec fn view(&self) -> DeviceModel {
        DeviceModel { path: self.path@, pretty: self.pretty@, size: self.size }
    }
}

/// The models of a sequence of devices, in order.
pub open spec fn device_models(v: Seq<DeviceInfo>) -> Seq<DeviceModel> {
    v.map_values(|d: DeviceInfo| d@)
}

impl DeviceInfo {
    /// A copy of this device with the same path, label and size.
    pub fn duplicate(&self) -> (r: DeviceInfo)
        ensures
            r@ == self@,
    {
        DeviceInfo { path: self.path.clone(), pretty: self.pretty.clone(), size: self.size }
    }
}

/// One node of the block-device listing tree: a device or a partition,
/// with the nodes nested under it.
pub struct ListingNode {
    pub name: String,
    pub size: Option<u64>,
    /// The listing's type tag (`disk`, `part`, `loop`, ...).
    pub kind: Option<String>,
    pub model: Option<String>,
    pub children: Vec<ListingNode>,
}

/// The whole listing: the top-level nodes, in the listing's order.
pub struct Listing {
    pub blockdevices: Vec<ListingNode>,
}

/// Why a device probe produced no list.
#[derive(PartialEq, Eq, Structural, Clone, Copy, Debug)]
pub enum ProbeError {
    /// The listing tool could not be run or exited with a failure status.
    ExternalTool,
    /// The tool's output was not a well-formed listing.
    Parse,
}

/// The node carries the type tag `disk`.
pub open spec fn is_disk(node: ListingNode) -> bool {
    node.kind is Some && node.kind->0@ == "disk"@
}

/// The device that a `disk` node stands for.
pub open spec fn device_of(node: ListingNode) -> DeviceModel {
    DeviceModel {
        path: "/dev/"@ + node.name@,
        pretty: match node.model {
            Some(m) => m@,
            None => "disk"@,
        },
        size: match node.size {
            Some(s) => s,
            None => 0,
        },
    }
}

/// The devices of a subtree, in depth-first (pre-order) order.
pub open spec fn disks_of(node: ListingNode) -> Seq<DeviceModel>
    decreases node,
{
    let own = if is_disk(node) {
        seq![device_of(node)]
    } else {
        Seq::<DeviceModel>::empty()
    };
    own + disks_of_forest(node.children@)
}

/// The devices of a sequence of subtrees, one subtree after the other.
pub open spec fn disks_of_forest(nodes: Seq<ListingNode>) -> Seq<DeviceModel>
    decreases nodes,
{
    if nodes.len() == 0 {
        Seq::<DeviceModel>::empty()
    } else {
        disks_of_forest(nodes.drop_last()) + disks_of(nodes.last())
    }
}

/// Some node of the subtree carries the type tag `disk`.
pub open spec fn has_disk(node: ListingNode) -> bool
    decreases node,
{
    is_disk(node) || forest_has_disk(node.children@)
}

/// Some node of one of the subtrees carries the type tag `disk`.
pub open spec fn forest_has_disk(nodes: Seq<ListingNode>) -> bool
    decreases nodes,
{
    if nodes.len() == 0 {
        false
    } else {
        forest_has_disk(nodes.drop_last()) || has_disk(nodes.last())
    }
}

proof fn lemma_forest_prefix(nodes: Seq<ListingNode>, i: int)
    requires
        0 <= i < nodes.len(),
    ensures
        disks_of_forest(nodes.subrange(0, i + 1)) == disks_of_forest(nodes.subrange(0, i))
            + disks_of(nodes[i]),
{
    assert(nodes.subrange(0, i + 1).drop_last() =~= nodes.subrange(0, i));
}

fn is_disk_tag(kind: &Option<String>) -> (r: bool)
    ensures
        r == (kind is Some && kind->0@ == "disk"@),
{
    match kind {
        Some(t) => *t == String::from_str("disk"),
        None => false,
    }
}

/// Appends to `out` the devices of the subtree under `node`, in depth-first order.
pub fn collect_disks(node: &ListingNode, out: &mut Vec<DeviceInfo>)
    ensures
        device_models(final(out)@) == device_models(old(out)@) + disks_of(*node),
    decreases node,
{
    let ghost start = device_models(out@);
    if is_disk_tag(&node.kind) {
        let mut path = String::from_str("/dev/");
        path.append(node.name.as_str());
        let pretty = match &node.model {
            Some(m) => m.clone(),
            None => String::from_str("disk"),
        };
        let size: u64 = match node.size {
            Some(s) => s,
            None => 0,
        };
        let d = DeviceInfo { path, pretty, size };
        assert(d@ == device_of(*node));
        out.push(d);
        assert(device_models(out@) =~= start + seq![device_of(*node)]);
    }
    let ghost mid = device_models(out@);
    assert(mid == start + (if is_disk(*node) { seq![device_of(*node)] } else { Seq::<DeviceModel>::empty() })) by {
        if !is_disk(*node) {
            assert(mid =~= start + Seq::<DeviceModel>::empty());
        }
    }
    let n = node.children.len();
    let mut i: usize = 0;
    assert(node.children@.subrange(0, 0) =~= Seq::<ListingNode>::empty());
    while i < n
        invariant
            n == node.children@.len(),
            i <= n,
            device_models(out@) == mid + disks_of_forest(node.children@.subrange(0, i as int)),
        decreases n - i,
    {
        collect_disks(&node.children[i], out);
        proof {
            lemma_forest_prefix(node.children@, i as int);
        }
        assert(device_models(out@) =~= mid + disks_of_forest(node.children@.subrange(0, i + 1)));
        i = i + 1;
    }
    assert(node.children@.subrange(0, n as int) =~= node.children@);
}


/// The device list for one run of the listing tool, given whether the tool
/// ran and exited successfully and its output parsed as a listing (`None`
/// when the output was not well formed). Devices come in depth-first order.
pub fn devices_from_listing(exit_ok: bool, listing: Option<Listing>) -> (r: Result<
    Vec<DeviceInfo>,
    ProbeError,
>)
    ensures
        !exit_ok ==> r == Err::<Vec<DeviceInfo>, ProbeError>(ProbeError::ExternalTool),
        exit_ok && listing is None ==> r == Err::<Vec<DeviceInfo>, ProbeError>(ProbeError::Parse),
        exit_ok && listing is Some ==> r is Ok && device_models(r->Ok_0@) == disks_of_forest(
            listing->0.blockdevices@,
        ),
{
    if !exit_ok {
        return Err(ProbeError::ExternalTool);
    }
    let listing = match listing {
        Some(l) => l,
        None => {
            return Err(ProbeError::Parse);
        },
    };
    let nodes = &listing.blockdevices;
    let mut devices: Vec<DeviceInfo> = Vec::new();
    let n = nodes.len();
    let mut i: usize = 0;
    assert(device_models(devices@) =~= disks_of_forest(nodes@.subrange(0, 0)));
    while i < n
        invariant
            n == nodes@.len(),
            i <= n,
            device_models(devices@) == disks_of_forest(nodes@.subrange(0, i as int)),
        decreases n - i,
    {
        collect_disks(&nodes[i], &mut devices);
        proof {
            lemma_forest_prefix(nodes@, i as int);
        }
        i = i + 1;
    }
    assert(nodes@.subrange(0, n as int) =~= nodes@);
    Ok(devices)
}

/// A subtree in which no node is tagged `disk` yields no device.
pub proof fn lemma_no_disk_no_devices(node: ListingNode)
    requires
        !has_disk(node),
    ensures
        disks_of(node) == Seq::<DeviceModel>::empty(),
    decreases node,
{
    lemma_no_disk_forest_no_devices(node.children@);
    assert(disks_of(node) =~= Seq::<DeviceModel>::empty());
}

/// A listing in which no node at any depth is tagged `disk` yields an empty
/// device list.
pub proof fn lemma_no_disk_forest_no_devices(nodes: Seq<ListingNode>)
    requires
        !forest_has_disk(nodes),
    ensures
        disks_of_forest(nodes) == Seq::<DeviceModel>::empty(),
    decreases nodes,
{
    if nodes.len() > 0 {
        lemma_no_disk_forest_no_devices(nodes.drop_last());
        lemma_no_disk_no_devices(nodes.last());
        assert(disks_of_forest(nodes) =~= Seq::<DeviceModel>::empty());
    }
}

} // verus!
