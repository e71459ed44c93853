use vstd::prelude::*;

verus! {

/// Errors of spiking-network simulation on node collections.
#[derive(Debug, Clone)]
pub enum NestError {
    UnknownModel(String),
    NodeNotFound(usize),
    InvalidParameter(String),
    ConnectionError(String),
    SimulationError(String),
}

/// An ordered collection of node identifiers.
#[derive(Debug, Clone)]
pub struct NodeCollection {
    pub ids: Vec<usize>,
}

impl View for NodeCollection {
    type V = Seq<usize>;

    open spec fn view(&self) -> Seq<usize> {
        self.ids@
    }
}

impl NodeCollection {
    pub fn new(ids: Vec<usize>) -> (r: Self)
        ensures
            r@ == ids@,
    {
        NodeCollection { ids }
    }

    pub fn len(&self) -> (r: usize)
        ensures
            r == self@.len(),
    {
        self.ids.len()
    }

    pub fn is_empty(&self) -> (r: bool)
        ensures
            r <==> self@.len() == 0,
    {
        self.ids.len() == 0
    }

    pub fn first(&self) -> (r: Option<usize>)
        ensures
            self@.len() == 0 ==> r is None,
            self@.len() > 0 ==> r == Some(self@[0]),
    {
        if self.ids.len() == 0 {
            None
        } else {
            Some(self.ids[0])
        }
    }

    pub fn last(&self) -> (r: Option<usize>)
        ensures
            self@.len() == 0 ==> r is None,
            self@.len() > 0 ==> r == Some(self@.last()),
    {
        let n = self.ids.len();
        if n == 0 {
            None
        } else {
            Some(self.ids[n - 1])
        }
    }

    /// The nodes at positions `start` up to, not including, `end`.
    pub fn slice(&self, start: usize, end: usize) -> (r: Self)
        requires
            start <= end <= self@.len(),
        ensures
            r@ == self@.subrange(start as int, end as int),
    {
        let mut ids: Vec<usize> = Vec::new();
        let mut i: usize = start;
        while i < end
            invariant
                start <= i <= end <= self@.len(),
                ids@ == self@.subrange(start as int, i as int),
            decreases end - i,
        {
            ids.push(self.ids[i]);
            i += 1;
        }
        NodeCollection { ids }
    }

    /// Hands the identifiers over in order.
    pub fn into_ids(self) -> (r: Vec<usize>)
        ensures
            r@ == self@,
    {
        self.ids
    }
}

/// The connections from source `s` to each target in order; a connection
/// of a node to itself (an autapse) is left out unless allowed.
pub open spec fn pairs_from(s: usize, targets: Seq<usize>, allow_autapses: bool) -> Seq<
    (usize, usize),
>
    decreases targets.len(),
{
    if targets.len() == 0 {
        seq![]
    } else {
        let rest = pairs_from(s, targets.drop_last(), allow_autapses);
        let t = targets.last();
        if allow_autapses || s != t {
            rest.push((s, t))
        } else {
            rest
        }
    }
}

/// All-to-all connections: for each source in order, its connections to
/// every target in order.
pub open spec fn all_to_all(sources: Seq<usize>, targets: Seq<usize>, allow_autapses: bool) -> Seq<
    (usize, usize),
>
    decreases sources.len(),
{
    if sources.len() == 0 {
        seq![]
    } else {
        all_to_all(sources.drop_last(), targets, allow_autapses) + pairs_from(
            sources.last(),
            targets,
            allow_autapses,
        )
    }
}

/// One-to-one connections: the i-th source to the i-th target.
pub open spec fn one_to_one(sources: Seq<usize>, targets: Seq<usize>) -> Seq<(usize, usize)> {
    Seq::new(sources.len(), |i: int| (sources[i], targets[i]))
}

/// The (source, target) pairs of the all-to-all rule, source-major.
pub fn all_to_all_pairs(
    sources: &NodeCollection,
    targets: &NodeCollection,
    allow_autapses: bool,
) -> (r: Vec<(usize, usize)>)
    ensures
        r@ == all_to_all(sources@, targets@, allow_autapses),
{
    let ghost src = sources@;
    let ghost tgt = targets@;
    let mut r: Vec<(usize, usize)> = Vec::new();
    let mut i: usize = 0;
    while i < sources.ids.len()
        invariant
            src == sources@,
            tgt == targets@,
            i <= src.len(),
            r@ == all_to_all(src.subrange(0, i as int), tgt, allow_autapses),
        decreases src.len() - i,
    {
        let s = sources.ids[i];
        let ghost before = r@;
        let mut j: usize = 0;
        while j < targets.ids.len()
            invariant
                src == sources@,
                tgt == targets@,
                i < src.len(),
                s == src[i as int],
                j <= tgt.len(),
                before == all_to_all(src.subrange(0, i as int), tgt, allow_autapses),
                r@ == before + pairs_from(s, tgt.subrange(0, j as int), allow_autapses),
            decreases tgt.len() - j,
        {
            let t = targets.ids[j];
            proof {
                assert(tgt.subrange(0, j + 1).drop_last() =~= tgt.subrange(0, j as int));
                assert(tgt.subrange(0, j + 1).last() == t);
            }
            if allow_autapses || s != t {
                r.push((s, t));
                proof {
                    assert(r@ =~= before + pairs_from(s, tgt.subrange(0, j + 1), allow_autapses));
                }
            }
            j += 1;
        }
        proof {
            assert(tgt.subrange(0, tgt.len() as int) =~= tgt);
            assert(src.subrange(0, i + 1).drop_last() =~= src.subrange(0, i as int));
            assert(src.subrange(0, i + 1).last() == s);
        }
        i += 1;
    }
    proof {
        assert(src.subrange(0, src.len() as int) =~= src);
    }
    r
}

/// The (source, target) pairs of the one-to-one rule; populations of
/// different sizes are refused with a connection error.
pub fn one_to_one_pairs(sources: &NodeCollection, targets: &NodeCollection) -> (r: Result<
    Vec<(usize, usize)>,
    NestError,
>)
    ensures
        r is Err <==> sources@.len() != targets@.len(),
        r matches Ok(v) ==> v@ == one_to_one(sources@, targets@),
        r matches Err(e) ==> e is ConnectionError,
{
    if sources.ids.len() != targets.ids.len() {
        return Err(
            NestError::ConnectionError("OneToOne requires equal population sizes".to_owned()),
        );
    }
    let n = sources.ids.len();
    let mut r: Vec<(usize, usize)> = Vec::new();
    let mut i: usize = 0;
    while i < n
        invariant
            n == sources@.len() == targets@.len(),
            i <= n,
            r@ =~= one_to_one(sources@, targets@).subrange(0, i as int),
        decreases n - i,
    {
        r.push((sources.ids[i], targets.ids[i]));
        i += 1;
    }
    Ok(r)
}

} // verus!
