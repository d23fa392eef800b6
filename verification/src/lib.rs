//! The decisions of a packet graph: the bricks that a graph holds by name,
//! which requests on them the library refuses and with which comment, what
//! it hands to the packet-processing engine otherwise, and when the engine
//! is started. The engine's own calls are made by the caller, who hands
//! their outcome back.

use vstd::prelude::*;

pub mod brick;
pub mod error;
pub mod firewall;
pub mod nop;
pub mod table;
pub mod tap;

use crate::brick::Type;
use crate::error::Error;
use crate::table::{lookup, BrickInfo, BrickTable};

verus! {

// ---------------------------------------------------------------------
// Starting the engine
// ---------------------------------------------------------------------

/// The parameters with which the engine is started unless others are set.
pub open spec fn default_dpdk_params() -> Seq<char> {
    "-c1 -n1 --no-huge --no-shconf --lcores 0,1 -l 0,1"@
}

/// The message with which a failed start of the engine with `params` ends.
pub open spec fn start_failure_text(params: Seq<char>) -> Seq<char> {
    "Cannot init packetgraph with dpdk parameters "@ + params + ", adjust with set_dpdk_params()"@
}

/// The parameters with which the engine is to be started now, if it is
/// to be started: `v` is the parameters set and whether it has started.
pub open spec fn start_request_of(v: (Seq<char>, bool)) -> Option<Seq<char>> {
    if v.1 {
        None
    } else {
        Some(v.0)
    }
}

/// The state after the engine answered a start with `rc`: a negative
/// code is a failure and leaves it unstarted.
pub open spec fn after_start(v: (Seq<char>, bool), rc: i32) -> (Seq<char>, bool) {
    if rc < 0 {
        v
    } else {
        (v.0, true)
    }
}

/// The state after the parameters were set to `params`.
pub open spec fn after_set(v: (Seq<char>, bool), params: Seq<char>) -> (Seq<char>, bool) {
    (params, v.1)
}

/// The parameters of the engine and whether it has been started.
#[derive(Debug)]
pub struct Dpdk {
    params: String,
    started: bool,
}

impl View for Dpdk {
    type V = (Seq<char>, bool);

    closed spec fn view(&self) -> (Seq<char>, bool) {
        (self.params@, self.started)
    }
}

impl Dpdk {
    /// Not started, with the default parameters.
    pub fn new() -> (d: Dpdk)
        ensures
            d@ == (default_dpdk_params(), false),
    {
        Dpdk {
            params: String::from_str("-c1 -n1 --no-huge --no-shconf --lcores 0,1 -l 0,1"),
            started: false,
        }
    }

    /// The parameters with which the engine is started.
    pub fn params(&self) -> (r: String)
        ensures
            r@ == self@.0,
    {
        self.params.clone()
    }

    /// Whether the engine has been started.
    pub fn started(&self) -> (r: bool)
        ensures
            r == self@.1,
    {
        self.started
    }

    /// The parameters with which the engine is to be started before a
    /// graph is made, or nothing where it has been started already.
    pub fn start_request(&self) -> (r: Option<String>)
        ensures
            match r {
                Some(p) => start_request_of(self@) == Some(p@),
                None => start_request_of(self@) is None,
            },
    {
        if self.started {
            None
        } else {
            Some(self.params.clone())
        }
    }

    /// Records the engine's answer `rc` to a start: a negative code is a
    /// failure, and the message that it ends with is returned.
    pub fn start_done(&mut self, rc: i32) -> (r: Result<(), String>)
        ensures
            final(self)@ == after_start(old(self)@, rc),
            rc < 0 ==> r is Err && r->Err_0@ == start_failure_text(old(self)@.0),
            rc >= 0 ==> r is Ok,
    {
        if rc < 0 {
            let mut msg = String::from_str("Cannot init packetgraph with dpdk parameters ");
            msg.append(self.params.as_str());
            msg.append(", adjust with set_dpdk_params()");
            Err(msg)
        } else {
            self.started = true;
            Ok(())
        }
    }
}

/// Sets the parameters with which the engine is started.
pub fn set_dpdk_params(dpdk: &mut Dpdk, params: String)
    ensures
        final(dpdk)@ == after_set(old(dpdk)@, params@),
{
    dpdk.params = params;
}

/// Once the engine has started, it is not started again, whatever
/// parameters are set afterwards.
pub proof fn law_started_once(v: (Seq<char>, bool), rc: i32, params: Seq<char>)
    requires
        rc >= 0,
    ensures
        start_request_of(after_start(v, rc)) is None,
        start_request_of(after_set(after_start(v, rc), params)) is None,
{
}

/// Until the engine has started, it is started with the parameters set
/// last.
pub proof fn law_start_uses_last_params(v: (Seq<char>, bool), first: Seq<char>, last: Seq<char>)
    requires
        !v.1,
    ensures
        start_request_of(after_set(after_set(v, first), last)) == Some(last),
{
}

/// A failed start leaves the engine to be started again, with the same
/// parameters.
pub proof fn law_failed_start_retried(v: (Seq<char>, bool), rc: i32)
    requires
        rc < 0,
    ensures
        start_request_of(after_start(v, rc)) == start_request_of(v),
{
}

// ---------------------------------------------------------------------
// The graph
// ---------------------------------------------------------------------

/// A side of a brick.
#[derive(Clone, Copy, PartialEq, Eq, Structural, Debug)]
pub enum Side {
    WEST,
    EAST,
}

/// What the engine is handed to add a firewall rule: the firewall's handle,
/// the rule and the side it applies to.
#[derive(Debug)]
pub struct FirewallRule {
    pub brick: u64,
    pub rule: String,
    pub side: Side,
}

/// The comment of the refusal of a link whose west brick is not in the graph.
pub open spec fn west_missing_text(name: Seq<char>) -> Seq<char> {
    "West brick "@ + name + " does not exists in graph"@
}

/// The comment of the refusal of a link whose east brick is not in the graph.
pub open spec fn east_missing_text(name: Seq<char>) -> Seq<char> {
    "East brick "@ + name + " does not exists in graph"@
}

/// The comment of the refusal of a firewall request on a name not in the graph.
pub open spec fn brick_missing_text(name: Seq<char>) -> Seq<char> {
    "Brick "@ + name + " does not exists in graph"@
}

/// The comment of the refusal of a firewall request on a brick of another kind.
pub open spec fn not_firewall_text(name: Seq<char>) -> Seq<char> {
    "Brick "@ + name + " is not a firewall"@
}

/// The comment with which the library refuses to link or unlink `west`
/// and `east` in a graph whose bricks are `m`, if it refuses.
pub open spec fn edge_refusal(m: Map<Seq<char>, BrickInfo>, west: Seq<char>, east: Seq<char>) -> Option<Seq<char>> {
    if !m.dom().contains(west) {
        Some(west_missing_text(west))
    } else if !m.dom().contains(east) {
        Some(east_missing_text(east))
    } else {
        None
    }
}

/// The comment with which the library refuses a firewall request on
/// `name` in a graph whose bricks are `m`, if it refuses.
pub open spec fn firewall_refusal(m: Map<Seq<char>, BrickInfo>, name: Seq<char>) -> Option<Seq<char>> {
    if !m.dom().contains(name) {
        Some(brick_missing_text(name))
    } else if m[name].kind != Type::FIREWALL {
        Some(not_firewall_text(name))
    } else {
        None
    }
}

/// The handle of the brick that a registration under `name` replaces, if any.
pub open spec fn replaced_brick(m: Map<Seq<char>, BrickInfo>, name: Seq<char>) -> Option<u64> {
    match lookup(m, name) {
        Some(info) => Some(info.brick),
        None => None,
    }
}

/// A graph of bricks, each registered under a name.
#[derive(Debug)]
pub struct Graph {
    pub name: String,
    pub bricks: BrickTable,
}

impl View for Graph {
    type V = Map<Seq<char>, BrickInfo>;

    open spec fn view(&self) -> Map<Seq<char>, BrickInfo> {
        self.bricks@
    }
}

impl Graph {
    /// An empty graph named `name`. A graph is made only once the engine
    /// has been started.
    pub fn new(name: String, dpdk: &Dpdk) -> (g: Graph)
        requires
            dpdk@.1,
        ensures
            g.name@ == name@,
            g@ == Map::<Seq<char>, BrickInfo>::empty(),
    {
        Graph { name, bricks: BrickTable::new() }
    }

    /// The brick registered under `name`, if any.
    pub fn get(&self, name: &String) -> (r: Option<BrickInfo>)
        ensures
            r == lookup(self@, name@),
            r is Some <==> self@.dom().contains(name@),
            r is Some ==> r->Some_0 == self@[name@],
    {
        self.bricks.get(name)
    }

    /// The names of the bricks of the graph, each once.
    pub fn brick_names(&self) -> (r: Vec<String>)
        ensures
            r@.len() == self@.dom().len(),
            forall|i: int| 0 <= i < r@.len() ==> self@.dom().contains(#[trigger] r@[i]@),
            forall|k: Seq<char>| #[trigger] self@.dom().contains(k) ==> exists|i: int| 0 <= i < r@.len() && #[trigger] r@[i]@ == k,
            forall|i: int, j: int| 0 <= i < j < r@.len() ==> #[trigger] r@[i]@ != #[trigger] r@[j]@,
    {
        self.bricks.names()
    }

    fn edge(&self, west: String, east: String) -> (r: Result<(u64, u64), Error>)
        ensures
            match edge_refusal(self@, west@, east@) {
                Some(t) => r is Err && !r->Err_0.reported() && r->Err_0.text() == t,
                None => r == Ok::<(u64, u64), Error>((self@[west@].brick, self@[east@].brick)),
            },
    {
        let w = match self.bricks.get(&west) {
            None => {
                let mut error = Error::new();
                let mut msg = String::from_str("West brick ");
                msg.append(west.as_str());
                msg.append(" does not exists in graph");
                error.set(msg);
                return Err(error);
            },
            Some(b) => b,
        };
        let e = match self.bricks.get(&east) {
            None => {
                let mut error = Error::new();
                let mut msg = String::from_str("East brick ");
                msg.append(east.as_str());
                msg.append(" does not exists in graph");
                error.set(msg);
                return Err(error);
            },
            Some(b) => b,
        };
        Ok((w.brick, e.brick))
    }

    /// Decides a link from the east side of `west` to the west side of
    /// `east`: refused where either is not in the graph, else the handles
    /// of the two bricks that the engine is to link.
    pub fn link(&self, west: String, east: String) -> (r: Result<(u64, u64), Error>)
        ensures
            match edge_refusal(self@, west@, east@) {
                Some(t) => r is Err && !r->Err_0.reported() && r->Err_0.text() == t,
                None => r == Ok::<(u64, u64), Error>((self@[west@].brick, self@[east@].brick)),
            },
    {
        self.edge(west, east)
    }

    /// Decides the removal of the link between `west` and `east`: refused
    /// where either is not in the graph, else the handles of the two
    /// bricks that the engine is to unlink.
    pub fn unlink(&self, west: String, east: String) -> (r: Result<(u64, u64), Error>)
        ensures
            match edge_refusal(self@, west@, east@) {
                Some(t) => r is Err && !r->Err_0.reported() && r->Err_0.text() == t,
                None => r == Ok::<(u64, u64), Error>((self@[west@].brick, self@[east@].brick)),
            },
    {
        self.edge(west, east)
    }

    fn firewall(&self, name: &String) -> (r: Result<u64, Error>)
        ensures
            match firewall_refusal(self@, name@) {
                Some(t) => r is Err && !r->Err_0.reported() && r->Err_0.text() == t,
                None => r == Ok::<u64, Error>(self@[name@].brick),
            },
    {
        let b = match self.bricks.get(name) {
            None => {
                let mut error = Error::new();
                let mut msg = String::from_str("Brick ");
                msg.append(name.as_str());
                msg.append(" does not exists in graph");
                error.set(msg);
                return Err(error);
            },
            Some(b) => b,
        };
        match b.kind {
            Type::FIREWALL => {},
            _ => {
                let mut error = Error::new();
                let mut msg = String::from_str("Brick ");
                msg.append(name.as_str());
                msg.append(" is not a firewall");
                error.set(msg);
                return Err(error);
            },
        }
        Ok(b.brick)
    }

    /// Decides the addition of `rule` on `side` of the firewall `name`:
    /// refused where `name` is not in the graph or is not a firewall, else
    /// what the engine is to be handed.
    pub fn fw_rule_add(&self, name: String, rule: String, side: Side) -> (r: Result<FirewallRule, Error>)
        ensures
            match firewall_refusal(self@, name@) {
                Some(t) => r is Err && !r->Err_0.reported() && r->Err_0.text() == t,
                None => r is Ok && r->Ok_0.brick == self@[name@].brick && r->Ok_0.rule == rule
                    && r->Ok_0.side == side,
            },
    {
        let brick = self.firewall(&name)?;
        Ok(FirewallRule { brick, rule, side })
    }

    /// Decides the removal of the rules of the firewall `name`: refused
    /// where `name` is not in the graph or is not a firewall, else the
    /// handle of the firewall whose rules the engine is to remove.
    pub fn fw_flush(&self, name: String) -> (r: Result<u64, Error>)
        ensures
            match firewall_refusal(self@, name@) {
                Some(t) => r is Err && !r->Err_0.reported() && r->Err_0.text() == t,
                None => r == Ok::<u64, Error>(self@[name@].brick),
            },
    {
        self.firewall(&name)
    }

    fn register(&mut self, name: String, info: BrickInfo, pushed: Result<(), Error>) -> (r: Result<Option<u64>, Error>)
        ensures
            final(self).name@ == old(self).name@,
            pushed is Err ==> r == Err::<Option<u64>, Error>(pushed->Err_0) && final(self)@ == old(self)@,
            pushed is Ok ==> r == Ok::<Option<u64>, Error>(replaced_brick(old(self)@, name@))
                && (!old(self)@.dom().contains(name@) ==> r == Ok::<Option<u64>, Error>(None))
                && (old(self)@.dom().contains(name@) ==> r == Ok::<Option<u64>, Error>(Some(old(self)@[name@].brick)))
                && final(self)@ == old(self)@.insert(name@, info),
    {
        pushed?;
        let prev = self.bricks.insert(name, info);
        match prev {
            Some(p) => Ok(Some(p.brick)),
            None => Ok(None),
        }
    }

    /// Registers the nop brick `brick` under `name`, once the engine has
    /// answered its addition to the graph with `pushed`. Where it failed,
    /// the graph is unchanged; else the handle of the brick that the name
    /// had before, which leaves the graph, is returned.
    pub fn nop_new(&mut self, name: String, brick: u64, pushed: Result<(), Error>) -> (r: Result<Option<u64>, Error>)
        ensures
            final(self).name@ == old(self).name@,
            pushed is Err ==> r == Err::<Option<u64>, Error>(pushed->Err_0) && final(self)@ == old(self)@,
            pushed is Ok ==> r == Ok::<Option<u64>, Error>(replaced_brick(old(self)@, name@))
                && (!old(self)@.dom().contains(name@) ==> r == Ok::<Option<u64>, Error>(None))
                && (old(self)@.dom().contains(name@) ==> r == Ok::<Option<u64>, Error>(Some(old(self)@[name@].brick)))
                && final(self)@ == old(self)@.insert(name@, BrickInfo { kind: Type::NOP, brick }),
    {
        self.register(name, BrickInfo { kind: Type::NOP, brick }, pushed)
    }

    /// Registers the firewall brick `brick` under `name`, once the engine
    /// has answered its addition to the graph with `pushed`, as `nop_new`.
    pub fn fw_new(&mut self, name: String, brick: u64, pushed: Result<(), Error>) -> (r: Result<Option<u64>, Error>)
        ensures
            final(self).name@ == old(self).name@,
            pushed is Err ==> r == Err::<Option<u64>, Error>(pushed->Err_0) && final(self)@ == old(self)@,
            pushed is Ok ==> r == Ok::<Option<u64>, Error>(replaced_brick(old(self)@, name@))
                && (!old(self)@.dom().contains(name@) ==> r == Ok::<Option<u64>, Error>(None))
                && (old(self)@.dom().contains(name@) ==> r == Ok::<Option<u64>, Error>(Some(old(self)@[name@].brick)))
                && final(self)@ == old(self)@.insert(name@, BrickInfo { kind: Type::FIREWALL, brick }),
    {
        self.register(name, BrickInfo { kind: Type::FIREWALL, brick }, pushed)
    }

    /// Registers the tap brick `brick` under `name`, once the engine has
    /// answered its addition to the graph with `pushed`, as `nop_new`.
    pub fn tap_new(&mut self, name: String, brick: u64, pushed: Result<(), Error>) -> (r: Result<Option<u64>, Error>)
        ensures
            final(self).name@ == old(self).name@,
            pushed is Err ==> r == Err::<Option<u64>, Error>(pushed->Err_0) && final(self)@ == old(self)@,
            pushed is Ok ==> r == Ok::<Option<u64>, Error>(replaced_brick(old(self)@, name@))
                && (!old(self)@.dom().contains(name@) ==> r == Ok::<Option<u64>, Error>(None))
                && (old(self)@.dom().contains(name@) ==> r == Ok::<Option<u64>, Error>(Some(old(self)@[name@].brick)))
                && final(self)@ == old(self)@.insert(name@, BrickInfo { kind: Type::TAP, brick }),
    {
        self.register(name, BrickInfo { kind: Type::TAP, brick }, pushed)
    }
}

/// A brick registered under a name is found by that name, and the
/// registration leaves what every other name finds as it was.
pub proof fn law_registered_brick_found(m: Map<Seq<char>, BrickInfo>, name: Seq<char>, info: BrickInfo, other: Seq<char>)
    requires
        other != name,
    ensures
        lookup(m.insert(name, info), name) == Some(info),
        lookup(m.insert(name, info), other) == lookup(m, other),
{
}

/// A name that is not in the graph finds nothing; a name that is finds
/// the brick registered under it.
pub proof fn law_lookup_finds_registered_only(m: Map<Seq<char>, BrickInfo>, name: Seq<char>)
    ensures
        lookup(m, name) is Some <==> m.dom().contains(name),
        m.dom().contains(name) ==> lookup(m, name) == Some(m[name]),
        lookup(Map::<Seq<char>, BrickInfo>::empty(), name) is None,
{
}

/// Registering under a name that is not in the graph replaces no brick,
/// whatever else the graph holds; registering under a name that is
/// replaces exactly the brick registered under it.
pub proof fn law_replaced_brick_is_the_previous_one(m: Map<Seq<char>, BrickInfo>, name: Seq<char>)
    ensures
        !m.dom().contains(name) ==> replaced_brick(m, name) is None,
        m.dom().contains(name) ==> replaced_brick(m, name) == Some(m[name].brick),
        replaced_brick(Map::<Seq<char>, BrickInfo>::empty(), name) is None,
{
}

/// Two bricks registered in the graph can be linked and unlinked as far
/// as the library decides, whatever was registered before them.
pub proof fn law_registered_bricks_linkable(
    m: Map<Seq<char>, BrickInfo>,
    west: Seq<char>,
    w: BrickInfo,
    east: Seq<char>,
    e: BrickInfo,
)
    ensures
        edge_refusal(m.insert(west, w).insert(east, e), west, east) is None,
        west != east ==> m.insert(west, w).insert(east, e)[west] == w,
        m.insert(west, w).insert(east, e)[east] == e,
{
}

/// A link is refused exactly where one of its bricks is not in the graph,
/// the west brick being looked for first.
pub proof fn law_edge_refused_iff_missing(m: Map<Seq<char>, BrickInfo>, west: Seq<char>, east: Seq<char>)
    ensures
        edge_refusal(m, west, east) is None <==> (m.dom().contains(west) && m.dom().contains(east)),
        !m.dom().contains(west) ==> edge_refusal(m, west, east) == Some(west_missing_text(west)),
{
}

/// Firewall requests are accepted on the name of a firewall just
/// registered, and refused on the name of a brick of another kind just
/// registered.
pub proof fn law_firewall_requests_follow_kind(m: Map<Seq<char>, BrickInfo>, name: Seq<char>, info: BrickInfo)
    ensures
        info.kind == Type::FIREWALL ==> firewall_refusal(m.insert(name, info), name) is None,
        info.kind != Type::FIREWALL ==> firewall_refusal(m.insert(name, info), name) == Some(not_firewall_text(name)),
        firewall_refusal(Map::<Seq<char>, BrickInfo>::empty(), name) == Some(brick_missing_text(name)),
{
}

} // verus!
