//! The paths at which an upstream is asked for its health.

use vstd::prelude::*;

use crate::text::{chars_of, same_text, text_of};

verus! {

/// The path that is asked for first where none is configured.
pub const HEALTH_PATH: &'static str = "/health";

/// The readiness path of servers with an OpenAI-compatible surface.
pub const READY_PATH: &'static str = "/v1/health/ready";

/// The candidate paths and, once one has answered, which.
#[derive(Debug)]
pub struct UpstreamHealthPaths {
    candidates: Vec<String>,
    resolved: Option<usize>,
}

/// The path with a slash at its front.
pub open spec fn rooted(path: Seq<char>) -> Seq<char> {
    if path.len() > 0 && path[0] == '/' {
        path
    } else {
        seq!['/'] + path
    }
}

/// Puts a slash in front of a path that has none.
pub fn root_path(path: &str) -> (root: String)
    ensures
        root@ == rooted(path@),
{
    let chars = chars_of(path);
    if chars.len() > 0 && chars[0] == '/' {
        return text_of(chars.as_slice());
    }
    let mut root = String::new();
    root.push('/');
    let mut i: usize = 0;
    while i < chars.len()
        invariant
            i <= chars.len(),
            root@ == seq!['/'] + chars@.take(i as int),
        decreases chars.len() - i,
    {
        root.push(chars[i]);
        proof {
            assert(seq!['/'] + chars@.take(i + 1) =~= (seq!['/'] + chars@.take(i as int)).push(chars[i as int]));
        }
        i += 1;
    }
    assert(chars@.take(i as int) =~= chars@);
    root
}

/// The list with the path at its end, unless it is in it already.
pub open spec fn with_path(paths: Seq<Seq<char>>, path: Seq<char>) -> Seq<Seq<char>> {
    if paths.contains(path) {
        paths
    } else {
        paths.push(path)
    }
}

/// The configured paths, each once, with the standard ones after them.
pub open spec fn candidate_paths(configured: Seq<Seq<char>>) -> Seq<Seq<char>> {
    with_path(with_path(configured_paths(configured), HEALTH_PATH@), READY_PATH@)
}

pub open spec fn configured_paths(configured: Seq<Seq<char>>) -> Seq<Seq<char>>
    decreases configured.len(),
{
    if configured.len() == 0 {
        Seq::empty()
    } else {
        with_path(configured_paths(configured.drop_last()), rooted(configured.last()))
    }
}

fn add_path(paths: &mut Vec<String>, path: String)
    ensures
        crate::keyed::views(final(paths)@) == with_path(crate::keyed::views(old(paths)@), path@),
{
    let ghost known = crate::keyed::views(paths@);
    let mut i: usize = 0;
    while i < paths.len()
        invariant
            i <= paths.len(),
            *paths == *old(paths),
            known == crate::keyed::views(paths@),
            forall|j: int| 0 <= j < i ==> known[j] != path@,
        decreases paths.len() - i,
    {
        if same_text(paths[i].as_str(), path.as_str()) {
            assert(known[i as int] == path@);
            return;
        }
        i += 1;
    }
    assert(!known.contains(path@));
    paths.push(path);
    assert(crate::keyed::views(paths@) =~= known.push(path@));
}

impl UpstreamHealthPaths {
    pub closed spec fn candidates(&self) -> Seq<Seq<char>> {
        crate::keyed::views(self.candidates@)
    }

    pub closed spec fn resolved(&self) -> Option<usize> {
        self.resolved
    }

    /// There is a candidate, and the resolved one is among them.
    pub closed spec fn wf(&self) -> bool {
        &&& self.candidates@.len() > 0
        &&& self.resolved matches Some(index) ==> index < self.candidates@.len()
    }

    /// The path that has answered is one of the candidates.
    pub proof fn lemma_first_is_candidate(&self)
        requires
            self.wf(),
        ensures
            self.candidates().len() > 0,
            self.resolved() matches Some(index) ==> index < self.candidates().len(),
    {
    }

    /// The configured paths come before the standard ones.
    pub fn new(configured: &[String]) -> (paths: Self)
        ensures
            paths.wf(),
            paths.candidates() == candidate_paths(crate::keyed::views(configured@)),
            paths.resolved() is None,
    {
        let ghost all = crate::keyed::views(configured@);
        let mut candidates: Vec<String> = Vec::new();
        let mut i: usize = 0;
        assert(crate::keyed::views(candidates@) =~= configured_paths(all.take(0)));
        while i < configured.len()
            invariant
                i <= configured.len(),
                all == crate::keyed::views(configured@),
                crate::keyed::views(candidates@) == configured_paths(all.take(i as int)),
            decreases configured.len() - i,
        {
            let path = root_path(configured[i].as_str());
            proof {
                assert(all.take(i + 1).drop_last() =~= all.take(i as int));
                assert(all.take(i + 1).last() == configured[i as int]@);
            }
            add_path(&mut candidates, path);
            i += 1;
        }
        assert(all.take(i as int) =~= all);
        add_path(&mut candidates, HEALTH_PATH.to_string());
        add_path(&mut candidates, READY_PATH.to_string());
        let paths = UpstreamHealthPaths { candidates, resolved: None };
        proof {
            let last = crate::keyed::views(candidates@);
            let before = with_path(configured_paths(all), HEALTH_PATH@);
            assert(last == with_path(before, READY_PATH@));
            assert(last.len() > 0) by {
                if before.len() == 0 {
                    assert(!before.contains(READY_PATH@));
                }
            }
        }
        paths
    }

    /// The path that is probed first: the one that has answered, else the
    /// first candidate.
    pub fn probe_path(&self) -> (path: &str)
        requires
            self.wf(),
        ensures
            path@ == self.candidates()[match self.resolved() {
                Some(index) => index as int,
                None => 0,
            }],
    {
        let index: usize = match self.resolved {
            Some(index) => index,
            None => 0,
        };
        self.candidates[index].as_str()
    }

    /// The path that has answered.
    pub fn resolved_path(&self) -> (path: Option<&str>)
        requires
            self.wf(),
        ensures
            match (path, self.resolved()) {
                (Some(path), Some(index)) => path@ == self.candidates()[index as int],
                (None, None) => true,
                _ => false,
            },
    {
        match self.resolved {
            Some(index) => Some(self.candidates[index].as_str()),
            None => None,
        }
    }

    /// A candidate has answered.
    pub fn mark_resolved(&mut self, index: usize)
        requires
            old(self).wf(),
            index < old(self).candidates().len(),
        ensures
            final(self).wf(),
            final(self).candidates() == old(self).candidates(),
            final(self).resolved() == Some(index),
    {
        self.resolved = Some(index);
    }

    /// The candidates by their numbers, in the order in which they are
    /// probed: the one that has answered first, then the others in turn.
    pub fn probe_order(&self) -> (order: Vec<usize>)
        requires
            self.wf(),
        ensures
            is_probe_order(order@, self.candidates().len(), self.resolved()),
    {
        let mut order: Vec<usize> = Vec::new();
        if let Some(index) = self.resolved {
            order.push(index);
        }
        let ghost lead = order@;
        let mut i: usize = 0;
        while i < self.candidates.len()
            invariant
                i <= self.candidates.len(),
                order@ == lead + others(i as nat, self.resolved),
            decreases self.candidates.len() - i,
        {
            let is_lead = match self.resolved {
                Some(index) => index == i,
                None => false,
            };
            if !is_lead {
                order.push(i);
            }
            assert(order@ =~= lead + others((i + 1) as nat, self.resolved));
            i += 1;
        }
        order
    }

    /// The path of a candidate.
    pub fn path(&self, index: usize) -> (path: &str)
        requires
            index < self.candidates().len(),
        ensures
            path@ == self.candidates()[index as int],
    {
        self.candidates[index].as_str()
    }
}

/// The numbers below `count` without the resolved one.
pub open spec fn others(count: nat, resolved: Option<usize>) -> Seq<usize>
    decreases count,
{
    if count == 0 {
        Seq::empty()
    } else {
        let before = others((count - 1) as nat, resolved);
        if resolved == Some((count - 1) as usize) {
            before
        } else {
            before.push((count - 1) as usize)
        }
    }
}

pub open spec fn is_probe_order(order: Seq<usize>, count: nat, resolved: Option<usize>) -> bool {
    order == (match resolved {
        Some(index) => seq![index],
        None => Seq::empty(),
    }) + others(count, resolved)
}

impl Default for UpstreamHealthPaths {
    fn default() -> (paths: Self)
        ensures
            paths.wf(),
            paths.candidates() == candidate_paths(Seq::empty()),
            paths.resolved() is None,
    {
        let none: Vec<String> = Vec::new();
        let paths = UpstreamHealthPaths::new(none.as_slice());
        assert(crate::keyed::views(none@) =~= Seq::<Seq<char>>::empty());
        paths
    }
}

/// One round of probing: which candidates are still to be asked.
#[derive(Debug)]
pub struct HealthCheck {
    order: Vec<usize>,
    next: usize,
}

/// What is to be done next in a round of probing.
#[derive(Clone, Copy, Debug, PartialEq, Eq, Structural)]
pub enum HealthCheckStep {
    Probe(usize),
    Healthy,
    Unhealthy,
}

impl HealthCheck {
    pub closed spec fn order(&self) -> Seq<usize> {
        self.order@
    }

    pub closed spec fn next(&self) -> int {
        self.next as int
    }

    /// The round asks candidates of these paths.
    pub closed spec fn asks(&self, paths: &UpstreamHealthPaths) -> bool {
        &&& self.next <= self.order@.len()
        &&& forall|i: int| 0 <= i < self.order@.len() ==> #[trigger] self.order@[i] < paths.candidates().len()
    }

    pub fn begin(paths: &UpstreamHealthPaths) -> (check: Self)
        requires
            paths.wf(),
        ensures
            check.asks(paths),
            check.next() == 0,
            is_probe_order(check.order(), paths.candidates().len(), paths.resolved()),
    {
        let check = HealthCheck { order: paths.probe_order(), next: 0 };
        let count: usize = paths.candidates.len();
        proof {
            lemma_order_bounded(check.order@, count as nat, paths.resolved());
        }
        check
    }

    /// Takes in the answer to the last probe, if there was one: the status
    /// that came back, or none where the request failed. A successful answer
    /// resolves the path and ends the round; the round fails when every
    /// candidate has.
    pub fn step(&mut self, paths: &mut UpstreamHealthPaths, answer: Option<u16>) -> (step: HealthCheckStep)
        requires
            old(paths).wf(),
            old(self).asks(old(paths)),
        ensures
            final(paths).wf(),
            final(self).asks(final(paths)),
            final(self).order() == old(self).order(),
            final(paths).candidates() == old(paths).candidates(),
            if old(self).next() > 0 && (answer matches Some(status) && crate::bringup::success_status(status)) {
                &&& step is Healthy
                &&& final(paths).resolved() == Some(old(self).order()[old(self).next() - 1])
                &&& final(self).next() == old(self).next()
            } else {
                &&& final(paths).resolved() == old(paths).resolved()
                &&& if old(self).next() < old(self).order().len() {
                    &&& step == HealthCheckStep::Probe(old(self).order()[old(self).next()])
                    &&& final(self).next() == old(self).next() + 1
                } else {
                    &&& step is Unhealthy
                    &&& final(self).next() == old(self).next()
                }
            },
    {
        let succeeded = match answer {
            Some(status) => 200 <= status && status < 300,
            None => false,
        };
        if self.next > 0 && succeeded {
            paths.mark_resolved(self.order[self.next - 1]);
            return HealthCheckStep::Healthy;
        }
        if self.next < self.order.len() {
            let index: usize = self.order[self.next];
            self.next = self.next + 1;
            return HealthCheckStep::Probe(index);
        }
        HealthCheckStep::Unhealthy
    }
}

proof fn lemma_others_bounded(count: nat, resolved: Option<usize>)
    requires
        count <= usize::MAX,
    ensures
        forall|i: int| 0 <= i < others(count, resolved).len() ==> #[trigger] others(count, resolved)[i] < count,
    decreases count,
{
    if count > 0 {
        lemma_others_bounded((count - 1) as nat, resolved);
        let before = others((count - 1) as nat, resolved);
        let all = others(count, resolved);
        assert forall|i: int| 0 <= i < all.len() implies #[trigger] all[i] < count by {
            if i < before.len() {
                assert(all[i] == before[i]);
            }
        }
    }
}

proof fn lemma_order_bounded(order: Seq<usize>, count: nat, resolved: Option<usize>)
    requires
        count <= usize::MAX,
        is_probe_order(order, count, resolved),
        resolved matches Some(index) ==> index < count,
    ensures
        forall|i: int| 0 <= i < order.len() ==> #[trigger] order[i] < count,
{
    lemma_others_bounded(count, resolved);
    let lead = match resolved {
        Some(index) => seq![index],
        None => Seq::empty(),
    };
    assert forall|i: int| 0 <= i < order.len() implies #[trigger] order[i] < count by {
        if i >= lead.len() {
            assert(order[i] == others(count, resolved)[i - lead.len()]);
        }
    }
}

} // verus!
