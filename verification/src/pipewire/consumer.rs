//! Following the default sink through what the sound server reports.

use super::{level_view, Event, EventView, Level, LevelView, Message};
use crate::float;
use crate::fx;
use crate::text::same_text;
use rustc_hash::{FxHashMap, FxHashSet};
use vstd::prelude::*;

verus! {

broadcast use vstd::std_specs::hash::group_hash_axioms;

/// What is known of a node.
pub struct NodeInfo {
    /// The node that this one drives.
    pub input: Option<u32>,
    pub name: String,
    pub display: String,
    pub volume: Option<Level>,
    pub mute: Option<bool>,
    pub route: String,
}

/// The model of a [`NodeInfo`].
pub struct NodeView {
    pub input: Option<u32>,
    pub name: Seq<char>,
    pub display: Seq<char>,
    pub volume: Option<LevelView>,
    pub mute: Option<bool>,
    pub route: Seq<char>,
}

impl View for NodeInfo {
    type V = NodeView;

    open spec fn view(&self) -> NodeView {
        NodeView {
            input: self.input,
            name: self.name@,
            display: self.display@,
            volume: level_view(self.volume),
            mute: self.mute,
            route: self.route@,
        }
    }
}

/// A node of which nothing is known yet but what it drives.
pub open spec fn unknown_node(input: Option<u32>) -> NodeView {
    NodeView {
        input,
        name: Seq::empty(),
        display: Seq::empty(),
        volume: None,
        mute: None,
        route: Seq::empty(),
    }
}

/// The sink that sound goes to.
pub struct DefaultNode {
    pub id: u32,
    pub name: String,
}

/// What is to be done about a report.
pub enum Command {
    /// Listen to the device, and report its routes as those of the node.
    BindDevice { device_id: u32, node_id: u32 },
    /// Listen to the node, in place of any earlier listener.
    BindNode { id: u32, device_id: u32 },
    /// Stop listening to the object.
    Release(u32),
    /// Listen to the metadata, in place of any earlier listener.
    BindMetadata(u32),
    /// Tell the bar.
    Dispatch(Event),
}

/// The model of a [`Command`].
pub enum CommandView {
    BindDevice { device_id: u32, node_id: u32 },
    BindNode { id: u32, device_id: u32 },
    Release(u32),
    BindMetadata(u32),
    Dispatch(EventView),
}

impl View for Command {
    type V = CommandView;

    open spec fn view(&self) -> CommandView {
        match self {
            Command::BindDevice { device_id, node_id } => CommandView::BindDevice {
                device_id: *device_id,
                node_id: *node_id,
            },
            Command::BindNode { id, device_id } => CommandView::BindNode { id: *id, device_id: *device_id },
            Command::Release(id) => CommandView::Release(*id),
            Command::BindMetadata(id) => CommandView::BindMetadata(*id),
            Command::Dispatch(event) => CommandView::Dispatch(event@),
        }
    }
}

/// The model of a list of commands.
pub open spec fn commands(list: Seq<Command>) -> Seq<CommandView> {
    list.map_values(|c: Command| c@)
}

/// The objects that the sound server has announced, and the sink in use.
pub struct Consumer {
    devices: FxHashMap<u32, u32>,
    nodes: FxHashMap<u32, NodeInfo>,
    waiting: FxHashSet<u32>,
    metadata_default: Option<u32>,
    default_sink: Option<DefaultNode>,
    done: bool,
}

/// The model of a [`Consumer`].
pub struct ConsumerView {
    /// The devices that are listened to, each with the node that its routes are reported for.
    pub devices: Map<u32, u32>,
    /// The nodes that are listened to.
    pub nodes: Map<u32, NodeView>,
    /// The nodes that have not told their names yet.
    pub waiting: Set<u32>,
    /// The metadata that names the default devices.
    pub metadata_default: Option<u32>,
    /// The number and the name of the default sink.
    pub default_sink: Option<(u32, Seq<char>)>,
    /// Whether every object that existed at first has been announced.
    pub done: bool,
}

impl View for Consumer {
    type V = ConsumerView;

    closed spec fn view(&self) -> ConsumerView {
        ConsumerView {
            devices: self.devices@,
            nodes: self.nodes@.map_values(|n: NodeInfo| n@),
            waiting: self.waiting@,
            metadata_default: self.metadata_default,
            default_sink: match self.default_sink {
                Some(sink) => Some((sink.id, sink.name@)),
                None => None,
            },
            done: self.done,
        }
    }
}

/// The node at the end of the chain of inputs from node `id`, if it is reached in `steps`.
pub open spec fn input_within(nodes: Map<u32, NodeView>, id: u32, steps: nat) -> Option<u32>
    decreases steps,
{
    if !nodes.contains_key(id) {
        None
    } else {
        match nodes[id].input {
            None => Some(id),
            Some(next) => if steps == 0 {
                None
            } else {
                input_within(nodes, next, (steps - 1) as nat)
            },
        }
    }
}

/// The node that node `id` drives in the end: itself where it drives none. There is no such
/// node where the chain leads to one that is not there, or back into itself.
pub open spec fn input_of(nodes: Map<u32, NodeView>, id: u32) -> Option<u32> {
    input_within(nodes, id, nodes.len())
}

/// How many inputs the chain from node `id` goes through.
spec fn depth(nodes: Map<u32, NodeView>, id: u32, steps: nat) -> nat
    decreases steps,
{
    if !nodes.contains_key(id) || nodes[id].input is None || steps == 0 {
        0
    } else {
        1 + depth(nodes, nodes[id].input.unwrap(), (steps - 1) as nat)
    }
}

/// The nodes of the chain from node `id`.
spec fn chain(nodes: Map<u32, NodeView>, id: u32, steps: nat) -> Seq<u32>
    decreases steps,
{
    if !nodes.contains_key(id) || nodes[id].input is None || steps == 0 {
        seq![id]
    } else {
        seq![id] + chain(nodes, nodes[id].input.unwrap(), (steps - 1) as nat)
    }
}

/// However many steps are allowed, a chain that ends has one length and one end.
proof fn lemma_depth_is_one(nodes: Map<u32, NodeView>, id: u32, a: nat, b: nat)
    requires
        input_within(nodes, id, a) is Some,
        input_within(nodes, id, b) is Some,
    ensures
        depth(nodes, id, a) == depth(nodes, id, b),
        input_within(nodes, id, a) == input_within(nodes, id, b),
    decreases a,
{
    if nodes[id].input is Some {
        lemma_depth_is_one(nodes, nodes[id].input.unwrap(), (a - 1) as nat, (b - 1) as nat);
    }
}

/// A chain that ends does so at each of its nodes, each one step nearer to the end.
proof fn lemma_chain(nodes: Map<u32, NodeView>, id: u32, steps: nat)
    requires
        input_within(nodes, id, steps) is Some,
    ensures
        chain(nodes, id, steps).len() == depth(nodes, id, steps) + 1,
        forall|i: int|
            #![trigger chain(nodes, id, steps)[i]]
            0 <= i < chain(nodes, id, steps).len() ==> {
                let at = chain(nodes, id, steps)[i];
                &&& nodes.contains_key(at)
                &&& input_within(nodes, at, steps) is Some
                &&& depth(nodes, at, steps) == depth(nodes, id, steps) - i
            },
    decreases steps,
{
    if nodes[id].input is Some {
        let next = nodes[id].input.unwrap();
        let fewer = (steps - 1) as nat;
        lemma_chain(nodes, next, fewer);
        assert forall|i: int|
            #![trigger chain(nodes, id, steps)[i]]
            0 <= i < chain(nodes, id, steps).len() implies {
            let at = chain(nodes, id, steps)[i];
            &&& nodes.contains_key(at)
            &&& input_within(nodes, at, steps) is Some
            &&& depth(nodes, at, steps) == depth(nodes, id, steps) - i
        } by {
            if i > 0 {
                let at = chain(nodes, next, fewer)[i - 1];
                assert(chain(nodes, id, steps)[i] == at);
                lemma_more_steps(nodes, at, fewer, steps);
                lemma_depth_is_one(nodes, at, fewer, steps);
            }
        }
    }
}

/// A chain that ends within some steps ends within more.
proof fn lemma_more_steps(nodes: Map<u32, NodeView>, id: u32, fewer: nat, more: nat)
    requires
        fewer <= more,
        input_within(nodes, id, fewer) is Some,
    ensures
        input_within(nodes, id, more) == input_within(nodes, id, fewer),
    decreases fewer,
{
    if nodes[id].input is Some {
        lemma_more_steps(nodes, nodes[id].input.unwrap(), (fewer - 1) as nat, (more - 1) as nat);
    }
}

/// A chain that ends within some steps ends within as many as it has.
proof fn lemma_depth_steps(nodes: Map<u32, NodeView>, id: u32, steps: nat)
    requires
        input_within(nodes, id, steps) is Some,
    ensures
        input_within(nodes, id, depth(nodes, id, steps)) == input_within(nodes, id, steps),
    decreases steps,
{
    if nodes[id].input is Some {
        lemma_depth_steps(nodes, nodes[id].input.unwrap(), (steps - 1) as nat);
    }
}

/// No chain needs more steps than there are nodes: whatever number of steps is enough, the
/// number of nodes is.
pub proof fn law_input_needs_few_steps(nodes: Map<u32, NodeView>, id: u32, steps: nat)
    requires
        nodes.dom().finite(),
        input_within(nodes, id, steps) is Some,
    ensures
        input_of(nodes, id) == input_within(nodes, id, steps),
{
    let path = chain(nodes, id, steps);
    lemma_chain(nodes, id, steps);
    assert forall|i: int, j: int| 0 <= i < path.len() && 0 <= j < path.len() && i != j implies path[i]
        != path[j] by {
        assert(depth(nodes, path[i], steps) != depth(nodes, path[j], steps));
    }
    path.unique_seq_to_set();
    assert(path.to_set().subset_of(nodes.dom())) by {
        assert forall|k: u32| path.to_set().contains(k) implies nodes.dom().contains(k) by {
            let i = path.index_of(k);
            assert(nodes.contains_key(path[i]));
        }
    }
    vstd::set_lib::lemma_len_subset(path.to_set(), nodes.dom());
    lemma_depth_steps(nodes, id, steps);
    lemma_more_steps(nodes, id, depth(nodes, id, steps), nodes.len());
}

/// A node and the one that it drives have the same end.
pub proof fn law_input_shares_the_end(nodes: Map<u32, NodeView>, id: u32)
    requires
        nodes.dom().finite(),
        nodes.contains_key(id),
        nodes[id].input is Some,
    ensures
        input_of(nodes, id) == input_of(nodes, nodes[id].input.unwrap()),
{
    let next = nodes[id].input.unwrap();
    if input_of(nodes, id) is Some {
        law_input_needs_few_steps(nodes, next, (nodes.len() - 1) as nat);
    }
    if input_of(nodes, next) is Some {
        assert(input_within(nodes, id, nodes.len() + 1) == input_of(nodes, next));
        law_input_needs_few_steps(nodes, id, nodes.len() + 1);
    }
}

/// A consumer knows finitely many nodes.
pub proof fn lemma_finite(consumer: Consumer)
    ensures
        consumer@.nodes.dom().finite(),
{
    fx::lemma_map_finite(consumer.nodes);
    assert(consumer@.nodes.dom() =~= consumer.nodes@.dom());
}

/// The end of a chain is there, drives no node, and is its own end.
pub proof fn law_input_is_an_end(nodes: Map<u32, NodeView>, id: u32)
    requires
        input_of(nodes, id) is Some,
    ensures
        ({
            let end = input_of(nodes, id).unwrap();
            &&& nodes.contains_key(end)
            &&& nodes[end].input is None
            &&& input_of(nodes, end) == Some(end)
        }),
{
    lemma_end(nodes, id, nodes.len());
}

proof fn lemma_end(nodes: Map<u32, NodeView>, id: u32, steps: nat)
    requires
        input_within(nodes, id, steps) is Some,
    ensures
        ({
            let end = input_within(nodes, id, steps).unwrap();
            &&& nodes.contains_key(end)
            &&& nodes[end].input is None
        }),
    decreases steps,
{
    if nodes[id].input is Some {
        lemma_end(nodes, nodes[id].input.unwrap(), (steps - 1) as nat);
    }
}

/// Whether two optional volumes differ, as numbers do: no volume differs from any volume, and
/// what is no number differs from everything.
pub open spec fn volume_differs(before: Option<LevelView>, after: LevelView) -> bool {
    match before {
        Some(level) => !float::equal(level.bits, after.bits),
        None => true,
    }
}

/// Node `id` after it has reported `volume` and `mute`.
pub open spec fn with_props(node: NodeView, volume: Option<LevelView>, mute: Option<bool>) -> NodeView {
    NodeView {
        volume: if volume is Some {
            volume
        } else {
            node.volume
        },
        mute: if mute is Some {
            mute
        } else {
            node.mute
        },
        ..node
    }
}

/// What the bar is told when the default sink reports `volume` and `mute`: what has changed.
pub open spec fn prop_events(
    node: NodeView,
    volume: Option<LevelView>,
    mute: Option<bool>,
    is_default: bool,
) -> Seq<CommandView> {
    let first = match volume {
        Some(level) if is_default && volume_differs(node.volume, level) => seq![
            CommandView::Dispatch(EventView::Volume(level)),
        ],
        _ => Seq::empty(),
    };
    let second = match mute {
        Some(on) if is_default && node.mute != Some(on) => seq![
            CommandView::Dispatch(EventView::Mute(on)),
        ],
        _ => Seq::empty(),
    };
    first + second
}

/// What the bar is told of a new default sink: its names, and its volume and mute switch where
/// they are known.
pub open spec fn sink_events(node: NodeView) -> Seq<CommandView> {
    let names = seq![
        CommandView::Dispatch(
            EventView::DefaultChanged { display: node.display, route: node.route },
        ),
    ];
    let volume = match node.volume {
        Some(level) => seq![CommandView::Dispatch(EventView::Volume(level))],
        None => Seq::empty(),
    };
    let mute = match node.mute {
        Some(on) => seq![CommandView::Dispatch(EventView::Mute(on))],
        None => Seq::empty(),
    };
    names + volume + mute
}

/// Whether some node is called `name`.
pub open spec fn has_name(nodes: Map<u32, NodeView>, name: Seq<char>) -> bool {
    exists|id: u32| #[trigger] nodes.contains_key(id) && nodes[id].name == name
}

/// Whether a report turns `pre` into `post` and calls for `out`.
pub open spec fn handles(
    pre: ConsumerView,
    message: Message,
    post: ConsumerView,
    out: Seq<CommandView>,
) -> bool {
    match message {
        Message::Done => post == (ConsumerView { done: true, ..pre }) && out.len() == 0,
        Message::GlobalRemove(id) => {
            &&& post == (ConsumerView {
                devices: pre.devices.remove(id),
                nodes: pre.nodes.remove(id),
                ..pre
            })
            &&& out == seq![CommandView::Release(id)]
        },
        Message::MetadataDefault(id) => {
            &&& post == (ConsumerView { metadata_default: Some(id), ..pre })
            &&& out.len() == 0
        },
        Message::Node { id, device_id } => {
            let bind = seq![CommandView::BindNode { id, device_id }];
            &&& post == (ConsumerView {
                devices: if pre.devices.contains_key(device_id) {
                    pre.devices
                } else {
                    pre.devices.insert(device_id, id)
                },
                nodes: pre.nodes.insert(id, unknown_node(None)),
                waiting: pre.waiting.insert(id),
                ..pre
            })
            &&& out == if pre.devices.contains_key(device_id) {
                bind
            } else {
                seq![CommandView::BindDevice { device_id, node_id: id }] + bind
            }
        },
        Message::NodeDriver { input_id, device_id, driver_id } => {
            &&& post == (ConsumerView {
                nodes: pre.nodes.insert(driver_id, unknown_node(Some(input_id))),
                waiting: pre.waiting.insert(driver_id),
                ..pre
            })
            &&& out == seq![CommandView::BindNode { id: driver_id, device_id }]
        },
        Message::NodeInfo { id, name, display } => {
            let waiting = pre.waiting.remove(id);
            let node = NodeView {
                name: if name is Some {
                    name.unwrap()@
                } else {
                    pre.nodes[id].name
                },
                display: if display is Some {
                    display.unwrap()@
                } else {
                    pre.nodes[id].display
                },
                ..pre.nodes[id]
            };
            &&& post == (ConsumerView {
                waiting,
                nodes: if pre.nodes.contains_key(id) {
                    pre.nodes.insert(id, node)
                } else {
                    pre.nodes
                },
                ..pre
            })
            &&& out == match pre.metadata_default {
                Some(metadata) if waiting == Set::<u32>::empty() && pre.done => seq![
                    CommandView::BindMetadata(metadata),
                ],
                _ => Seq::empty(),
            }
        },
        Message::DeviceRoute { node_id, desc } => {
            &&& post == (ConsumerView {
                nodes: if pre.nodes.contains_key(node_id) {
                    pre.nodes.insert(node_id, NodeView { route: desc@, ..pre.nodes[node_id] })
                } else {
                    pre.nodes
                },
                ..pre
            })
            &&& out.len() == 0
        },
        Message::DefaultSink(name) => {
            let known = pre.default_sink matches Some(sink) && sink.1 == name@;
            if known || !has_name(pre.nodes, name@) {
                post == pre && out.len() == 0
            } else {
                exists|id: u32|
                    {
                        &&& #[trigger] pre.nodes.contains_key(id)
                        &&& pre.nodes[id].name == name@
                        &&& post == (ConsumerView { default_sink: Some((id, name@)), ..pre })
                        &&& out == sink_events(pre.nodes[id])
                    }
            }
        },
        Message::Props { id, volume, mute } => {
            let input = input_of(pre.nodes, id).unwrap();
            let node = pre.nodes[input];
            let is_default = pre.default_sink matches Some(sink) && sink.0 == input;
            &&& post == (ConsumerView {
                nodes: pre.nodes.insert(input, with_props(node, level_view(volume), mute)),
                ..pre
            })
            &&& out == prop_events(node, level_view(volume), mute, is_default)
        },
    }
}

/// Once a sink has been switched to, its name alone changes nothing and tells the bar nothing.
pub proof fn law_same_sink_is_quiet(
    pre: ConsumerView,
    name: String,
    mid: ConsumerView,
    first: Seq<CommandView>,
    post: ConsumerView,
    second: Seq<CommandView>,
)
    requires
        has_name(pre.nodes, name@),
        handles(pre, Message::DefaultSink(name), mid, first),
        handles(mid, Message::DefaultSink(name), post, second),
    ensures
        post == mid,
        second.len() == 0,
{
}

/// A node that reports the same volume and mute switch again changes nothing, and the bar is
/// told nothing; this holds of every volume that is a number.
pub proof fn law_same_props_are_quiet(
    pre: ConsumerView,
    id: u32,
    volume: Option<Level>,
    mute: Option<bool>,
    mid: ConsumerView,
    first: Seq<CommandView>,
    post: ConsumerView,
    second: Seq<CommandView>,
)
    requires
        pre.nodes.dom().finite(),
        input_of(pre.nodes, id) is Some,
        volume matches Some(level) ==> !float::is_nan(level.bits),
        handles(pre, Message::Props { id, volume, mute }, mid, first),
        handles(mid, Message::Props { id, volume, mute }, post, second),
    ensures
        post == mid,
        second.len() == 0,
{
    let input = input_of(pre.nodes, id).unwrap();
    law_input_is_an_end(pre.nodes, id);
    assert(mid.nodes.dom() =~= pre.nodes.dom());
    lemma_same_inputs(pre.nodes, mid.nodes, id, pre.nodes.len());
    assert(mid.nodes.insert(input, mid.nodes[input]) =~= mid.nodes);
}

/// Chains depend on inputs alone.
proof fn lemma_same_inputs(a: Map<u32, NodeView>, b: Map<u32, NodeView>, id: u32, steps: nat)
    requires
        a.dom() == b.dom(),
        forall|k: u32| #[trigger] a.contains_key(k) ==> a[k].input == b[k].input,
    ensures
        input_within(a, id, steps) == input_within(b, id, steps),
    decreases steps,
{
    assert(a.contains_key(id) == b.contains_key(id));
    if a.contains_key(id) && a[id].input is Some && steps > 0 {
        lemma_same_inputs(a, b, a[id].input.unwrap(), (steps - 1) as nat);
    }
}

/// What any other node than the default sink reports of its volume, the bar is not told.
pub proof fn law_other_sinks_are_quiet(
    pre: ConsumerView,
    id: u32,
    volume: Option<Level>,
    mute: Option<bool>,
    post: ConsumerView,
    out: Seq<CommandView>,
)
    requires
        input_of(pre.nodes, id) is Some,
        pre.default_sink matches Some(sink) ==> Some(sink.0) != input_of(pre.nodes, id),
        handles(pre, Message::Props { id, volume, mute }, post, out),
    ensures
        out.len() == 0,
{
}

/// A sink that is switched to is told of as it is known: the bar's next volume and mute switch
/// are those that the sink reported last.
pub proof fn law_switch_tells_what_was_reported(
    pre: ConsumerView,
    id: u32,
    volume: Level,
    mute: bool,
    mid: ConsumerView,
    first: Seq<CommandView>,
    name: String,
    post: ConsumerView,
    second: Seq<CommandView>,
)
    requires
        pre.nodes.contains_key(id),
        pre.nodes[id].input is None,
        pre.nodes[id].name == name@,
        forall|k: u32| #[trigger] pre.nodes.contains_key(k) && pre.nodes[k].name == name@ ==> k == id,
        !(pre.default_sink matches Some(sink) && sink.1 == name@),
        handles(pre, Message::Props { id, volume: Some(volume), mute: Some(mute) }, mid, first),
        handles(mid, Message::DefaultSink(name), post, second),
    ensures
        post.default_sink == Some((id, name@)),
        second == seq![
            CommandView::Dispatch(
                EventView::DefaultChanged {
                    display: pre.nodes[id].display,
                    route: pre.nodes[id].route,
                },
            ),
            CommandView::Dispatch(EventView::Volume(volume@)),
            CommandView::Dispatch(EventView::Mute(mute)),
        ],
{
    assert(input_of(pre.nodes, id) == Some(id));
    assert(mid.nodes.contains_key(id));
    assert forall|k: u32| #[trigger] mid.nodes.contains_key(k) && mid.nodes[k].name == name@ implies k
        == id by {
        assert(pre.nodes.contains_key(k));
    }
    assert(has_name(mid.nodes, name@));
}

impl Consumer {
    /// Whether the tables hash their keys as tables must.
    pub closed spec fn wf(&self) -> bool {
        &&& fx::map_hashes_consistently(self.devices)
        &&& fx::map_hashes_consistently(self.nodes)
        &&& fx::set_hashes_consistently(self.waiting)
    }

    /// Nothing has been announced yet.
    pub fn new() -> (res: Self)
        ensures
            res.wf(),
            res@ == (ConsumerView {
                devices: Map::empty(),
                nodes: Map::empty(),
                waiting: Set::empty(),
                metadata_default: None,
                default_sink: None,
                done: false,
            }),
    {
        let res = Consumer {
            devices: fx::map(),
            nodes: fx::map(),
            waiting: fx::set(),
            metadata_default: None,
            default_sink: None,
            done: false,
        };
        proof {
            assert(res@.devices =~= Map::empty());
            assert(res@.nodes =~= Map::empty());
        }
        res
    }

    /// Follows the chain of inputs from node `id` to its end, if it has one.
    pub fn find_input(&self, id: u32) -> (res: Option<u32>)
        requires
            self.wf(),
        ensures
            res == input_of(self@.nodes, id),
    {
        let mut at: u32 = id;
        let mut steps: usize = self.nodes.len();
        proof {
            fx::lemma_map_finite(self.nodes);
            assert(self@.nodes.dom() =~= self.nodes@.dom());
        }
        loop
            invariant
                self.wf(),
                input_within(self@.nodes, at, steps as nat) == input_of(self@.nodes, id),
            decreases steps,
        {
            match self.nodes.get(&at) {
                None => {
                    return None;
                },
                Some(node) => {
                    match node.input {
                        None => {
                            return Some(at);
                        },
                        Some(next) => {
                            if steps == 0 {
                                return None;
                            }
                            at = next;
                            steps = steps - 1;
                        },
                    }
                },
            }
        }
    }

    /// Follows the chain of inputs from node `id` to its end.
    pub fn get_input(&self, id: u32) -> (res: u32)
        requires
            self.wf(),
            input_of(self@.nodes, id) is Some,
        ensures
            input_of(self@.nodes, id) == Some(res),
    {
        self.find_input(id).unwrap()
    }

    /// Finds a node by its name.
    fn find_name(&self, name: &str) -> (res: Option<u32>)
        requires
            self.wf(),
        ensures
            match res {
                Some(id) => self@.nodes.contains_key(id) && self@.nodes[id].name == name@,
                None => !has_name(self@.nodes, name@),
            },
    {
        for (id, node) in it: self.nodes.iter()
            invariant
                self.wf(),
                forall|i: int| 0 <= i < it.index() ==> (#[trigger] it.seq()[i]).1.name@ != name@,
        {
            if same_text(node.name.as_str(), name) {
                return Some(*id);
            }
        }
        None
    }

    /// Puts `node` in the place of node `id`.
    fn set_node(&mut self, id: u32, node: NodeInfo)
        requires
            old(self).wf(),
        ensures
            final(self).wf(),
            final(self)@ == (ConsumerView { nodes: old(self)@.nodes.insert(id, node@), ..old(self)@ }),
    {
        self.nodes.insert(id, node);
        proof {
            assert(self@.nodes =~= old(self)@.nodes.insert(id, node@));
        }
    }

    /// Starts over with a node of which only the input is known.
    fn add_node(&mut self, id: u32, input: Option<u32>)
        requires
            old(self).wf(),
        ensures
            final(self).wf(),
            final(self)@ == (ConsumerView {
                nodes: old(self)@.nodes.insert(id, unknown_node(input)),
                waiting: old(self)@.waiting.insert(id),
                ..old(self)@
            }),
    {
        self.waiting.insert(id);
        self.set_node(
            id,
            NodeInfo {
                input,
                name: String::new(),
                display: String::new(),
                volume: None,
                mute: None,
                route: String::new(),
            },
        );
    }

    /// Takes in the names of a node, and listens to the metadata once no node's are missing.
    fn name_node(&mut self, id: u32, name: Option<String>, display: Option<String>) -> (res: Vec<Command>)
        requires
            old(self).wf(),
        ensures
            final(self).wf(),
            handles(
                old(self)@,
                Message::NodeInfo { id, name, display },
                final(self)@,
                commands(res@),
            ),
    {
        let mut res: Vec<Command> = Vec::new();
        self.waiting.remove(&id);
        if self.waiting.is_empty() && self.done {
            if let Some(metadata) = self.metadata_default {
                res.push(Command::BindMetadata(metadata));
            }
        }
        proof {
            assert(self@.waiting =~= old(self)@.waiting.remove(id));
            assert(self@.nodes =~= old(self)@.nodes);
            if self@.waiting.is_empty() {
                assert(self@.waiting =~= Set::<u32>::empty());
            }
            assert(commands(res@) =~= match old(self)@.metadata_default {
                Some(metadata) if old(self)@.waiting.remove(id) == Set::<u32>::empty()
                    && old(self)@.done => seq![CommandView::BindMetadata(metadata)],
                _ => Seq::empty(),
            });
        }
        if let Some(mut node) = self.nodes.remove(&id) {
            if let Some(x) = name {
                node.name = x;
            }
            if let Some(x) = display {
                node.display = x;
            }
            self.nodes.insert(id, node);
            proof {
                assert(self@.nodes =~= old(self)@.nodes.insert(id, node@));
            }
        } else {
            proof {
                assert(self@.nodes =~= old(self)@.nodes);
            }
        }
        res
    }

    /// Takes in where the sound of a node comes out.
    fn route_node(&mut self, id: u32, desc: String)
        requires
            old(self).wf(),
        ensures
            final(self).wf(),
            handles(
                old(self)@,
                Message::DeviceRoute { node_id: id, desc },
                final(self)@,
                Seq::empty(),
            ),
    {
        if let Some(mut node) = self.nodes.remove(&id) {
            node.route = desc;
            self.nodes.insert(id, node);
            proof {
                assert(self@.nodes =~= old(self)@.nodes.insert(id, node@));
            }
        } else {
            proof {
                assert(self@.nodes =~= old(self)@.nodes);
            }
        }
    }

    /// Switches to the sink called `name`, if it is another than before and there is one.
    fn switch_sink(&mut self, name: String) -> (res: Vec<Command>)
        requires
            old(self).wf(),
        ensures
            final(self).wf(),
            handles(old(self)@, Message::DefaultSink(name), final(self)@, commands(res@)),
    {
        let mut res: Vec<Command> = Vec::new();
        if let Some(sink) = &self.default_sink {
            if same_text(sink.name.as_str(), name.as_str()) {
                return res;
            }
        }
        match self.find_name(name.as_str()) {
            None => res,
            Some(id) => {
                let node = self.nodes.get(&id).unwrap();
                res.push(
                    Command::Dispatch(
                        Event::DefaultChanged {
                            display: node.display.clone(),
                            route: node.route.clone(),
                        },
                    ),
                );
                if let Some(level) = &node.volume {
                    res.push(Command::Dispatch(Event::Volume(level.clone())));
                }
                if let Some(mute) = node.mute {
                    res.push(Command::Dispatch(Event::Mute(mute)));
                }
                proof {
                    assert(commands(res@) =~= sink_events(self@.nodes[id]));
                }
                self.default_sink = Some(DefaultNode { id, name });
                proof {
                    assert(old(self)@.nodes.contains_key(id));
                    assert(self@ == (ConsumerView { default_sink: Some((id, name@)), ..old(self)@ }));
                }
                res
            },
        }
    }

    /// Takes in the volume and the mute switch that a node reports, and passes on what is new
    /// of the default sink.
    fn update_props(&mut self, id: u32, volume: Option<Level>, mute: Option<bool>) -> (res: Vec<
        Command,
    >)
        requires
            old(self).wf(),
            input_of(old(self)@.nodes, id) is Some,
        ensures
            final(self).wf(),
            handles(
                old(self)@,
                Message::Props { id, volume, mute },
                final(self)@,
                commands(res@),
            ),
    {
        let mut res: Vec<Command> = Vec::new();
        let input = self.get_input(id);
        proof {
            law_input_is_an_end(self@.nodes, id);
        }
        let is_default = match &self.default_sink {
            Some(sink) => sink.id == input,
            None => false,
        };
        let mut node = self.nodes.remove(&input).unwrap();
        let ghost before = node@;
        if let Some(level) = &volume {
            let differs = match &node.volume {
                Some(old_level) => !float::is_equal(old_level.bits, level.bits),
                None => true,
            };
            if differs && is_default {
                res.push(Command::Dispatch(Event::Volume(level.clone())));
            }
            node.volume = Some(level.clone());
        }
        let ghost first = commands(res@);
        if let Some(on) = mute {
            if node.mute != Some(on) && is_default {
                res.push(Command::Dispatch(Event::Mute(on)));
            }
            node.mute = Some(on);
        }
        self.nodes.insert(input, node);
        proof {
            assert(before == old(self)@.nodes[input]);
            assert(node@ == with_props(before, level_view(volume), mute));
            assert(commands(res@) =~= prop_events(before, level_view(volume), mute, is_default));
            assert(self@.nodes =~= old(self)@.nodes.insert(input, node@));
        }
        res
    }

    /// Takes in a report and says what is to be done.
    pub fn handle(&mut self, message: Message) -> (res: Vec<Command>)
        requires
            old(self).wf(),
            message matches Message::Props { id, .. } ==> input_of(old(self)@.nodes, id) is Some,
        ensures
            final(self).wf(),
            handles(old(self)@, message, final(self)@, commands(res@)),
    {
        let mut res: Vec<Command> = Vec::new();
        match message {
            Message::Done => {
                self.done = true;
            },
            Message::GlobalRemove(id) => {
                self.devices.remove(&id);
                self.nodes.remove(&id);
                res.push(Command::Release(id));
                proof {
                    assert(self@.nodes =~= old(self)@.nodes.remove(id));
                    assert(commands(res@) =~= seq![CommandView::Release(id)]);
                }
            },
            Message::MetadataDefault(id) => {
                self.metadata_default = Some(id);
            },
            Message::Node { id, device_id } => {
                if !self.devices.contains_key(&device_id) {
                    self.devices.insert(device_id, id);
                    res.push(Command::BindDevice { device_id, node_id: id });
                }
                res.push(Command::BindNode { id, device_id });
                self.add_node(id, None);
                proof {
                    let bind = seq![CommandView::BindNode { id, device_id }];
                    assert(commands(res@) =~= if old(self)@.devices.contains_key(device_id) {
                        bind
                    } else {
                        seq![CommandView::BindDevice { device_id, node_id: id }] + bind
                    });
                }
            },
            Message::NodeDriver { input_id, device_id, driver_id } => {
                self.add_node(driver_id, Some(input_id));
                res.push(Command::BindNode { id: driver_id, device_id });
                proof {
                    assert(commands(res@) =~= seq![CommandView::BindNode { id: driver_id, device_id }]);
                }
            },
            Message::NodeInfo { id, name, display } => {
                return self.name_node(id, name, display);
            },
            Message::DeviceRoute { node_id, desc } => {
                self.route_node(node_id, desc);
            },
            Message::DefaultSink(name) => {
                return self.switch_sink(name);
            },
            Message::Props { id, volume, mute } => {
                return self.update_props(id, volume, mute);
            },
        }
        res
    }
}

} // verus!
