//! The channel registry: one event channel per processing unit, each known
//! by a token that is its position in the table.
use vstd::prelude::*;

verus! {

/// Failures while opening or reading event channels.
#[derive(Debug, Clone, Copy, PartialEq, Eq, Structural)]
pub enum ChannelError {
    /// The list of processing units could not be obtained.
    Enumeration,
    /// The channel of this unit could not be opened.
    Open(u32),
    /// The ring buffer of this unit's channel could not be read.
    Read(u32),
}

/// The channels of all processing units, indexed by token.
pub struct ChannelRegistry<C> {
    units: Vec<u32>,
    channels: Vec<C>,
}

impl<C> ChannelRegistry<C> {
    /// The unit of each token: token `t` stands for unit `units()[t]`.
    pub closed spec fn units(&self) -> Seq<u32> {
        self.units@
    }

    /// The channel of each token.
    pub closed spec fn channels(&self) -> Seq<C> {
        self.channels@
    }

    pub closed spec fn wf(&self) -> bool {
        self.units@.len() == self.channels@.len()
    }

    /// The number of registered channels.
    pub fn len(&self) -> (r: usize)
        requires
            self.wf(),
        ensures
            r == self.units().len(),
            r == self.channels().len(),
    {
        self.units.len()
    }

    /// The tokens of all channels, in registration order.
    pub fn tokens(&self) -> (r: Vec<usize>)
        requires
            self.wf(),
        ensures
            r@.len() == self.units().len(),
            forall|t: int| 0 <= t < r@.len() ==> r@[t] == t,
    {
        let mut r: Vec<usize> = Vec::new();
        let mut t: usize = 0;
        while t < self.units.len()
            invariant
                t <= self.units@.len(),
                r@.len() == t,
                forall|i: int| 0 <= i < t ==> r@[i] == i,
            decreases self.units@.len() - t,
        {
            r.push(t);
            t = t + 1;
        }
        r
    }

    /// The unit that a token stands for, if the token is known.
    pub fn unit_of(&self, token: usize) -> (r: Option<u32>)
        requires
            self.wf(),
        ensures
            r == (if token < self.units().len() {
                Some(self.units()[token as int])
            } else {
                None
            }),
    {
        if token < self.units.len() {
            Some(self.units[token])
        } else {
            None
        }
    }

    /// The channel that a token stands for, if the token is known.
    pub fn channel(&self, token: usize) -> (r: Option<&C>)
        requires
            self.wf(),
        ensures
            r == (if token < self.channels().len() {
                Some(&self.channels()[token as int])
            } else {
                None
            }),
    {
        if token < self.channels.len() {
            Some(&self.channels[token])
        } else {
            None
        }
    }

    /// The channel that a token stands for, lent for draining.
    pub fn channel_mut(&mut self, token: usize) -> (r: Option<&mut C>)
        requires
            old(self).wf(),
        ensures
            final(self).wf(),
            final(self).units() == old(self).units(),
            final(self).channels().len() == old(self).channels().len(),
            (r is Some <==> token < old(self).channels().len()),
            forall|t: int|
                0 <= t < old(self).channels().len() && t != token ==> final(self).channels()[t]
                    == old(self).channels()[t],
    {
        if token < self.channels.len() {
            Some(&mut self.channels[token])
        } else {
            None
        }
    }
}

/// Opens the channel set from what the host reported: `units` is the list of
/// processing units (`None` when it could not be obtained) and, for each
/// unit in turn, whether its channel opened. A single unit that failed to
/// open fails the whole set, and no channel is kept.
pub fn open_all_channels<C>(units: Option<Vec<(u32, Option<C>)>>) -> (r: Result<
    ChannelRegistry<C>,
    ChannelError,
>)
    ensures
        units is None ==> r == Err::<ChannelRegistry<C>, ChannelError>(ChannelError::Enumeration),
        units matches Some(v) ==> {
            &&& (r is Ok <==> forall|i: int| 0 <= i < v@.len() ==> v@[i].1 is Some)
            &&& (r matches Err(e) ==> exists|i: int|
                0 <= i < v@.len() && v@[i].1 is None && e == ChannelError::Open(v@[i].0)
                && forall|j: int| 0 <= j < i ==> v@[j].1 is Some)
            &&& (r matches Ok(reg) ==> {
                &&& reg.wf()
                &&& reg.units() == v@.map_values(|p: (u32, Option<C>)| p.0)
                &&& reg.channels() == v@.map_values(|p: (u32, Option<C>)| p.1->Some_0)
            })
        },
{
    match units {
        None => Err(ChannelError::Enumeration),
        Some(v) => open_listed(v),
    }
}

fn open_listed<C>(listed: Vec<(u32, Option<C>)>) -> (r: Result<ChannelRegistry<C>, ChannelError>)
    ensures
        r is Ok <==> forall|i: int| 0 <= i < listed@.len() ==> listed@[i].1 is Some,
        r matches Err(e) ==> exists|i: int|
            0 <= i < listed@.len() && listed@[i].1 is None && e == ChannelError::Open(listed@[i].0) && forall|
                j: int,
            |
                0 <= j < i ==> listed@[j].1 is Some,
        r matches Ok(reg) ==> {
            &&& reg.wf()
            &&& reg.units() == listed@.map_values(|p: (u32, Option<C>)| p.0)
            &&& reg.channels() == listed@.map_values(|p: (u32, Option<C>)| p.1->Some_0)
        },
{
    let ghost orig = listed@;
    let mut v = listed;
    let mut reg = ChannelRegistry { units: Vec::new(), channels: Vec::new() };
    let ghost mut i: int = 0;
    while v.len() > 0
        invariant
            reg.wf(),
            orig == listed@,
            0 <= i <= orig.len(),
            v@ =~= orig.subrange(i, orig.len() as int),
            reg.units@ =~= orig.subrange(0, i).map_values(|p: (u32, Option<C>)| p.0),
            reg.channels@ =~= orig.subrange(0, i).map_values(|p: (u32, Option<C>)| p.1->Some_0),
            forall|j: int| 0 <= j < i ==> orig[j].1 is Some,
        decreases v@.len(),
    {
        let (unit, opened) = v.remove(0);
        assert(orig[i] == (unit, opened));
        match opened {
            None => {
                assert(0 <= i < orig.len() && orig[i].1 is None && ChannelError::Open(unit)
                    == ChannelError::Open(orig[i].0) && forall|j: int|
                    0 <= j < i ==> orig[j].1 is Some);
                return Err(ChannelError::Open(unit));
            },
            Some(channel) => {
                reg.units.push(unit);
                reg.channels.push(channel);
                proof {
                    i = i + 1;
                }
            },
        }
    }
    assert(orig.subrange(0, i) =~= orig);
    Ok(reg)
}

/// Every host with `n` processing units whose channels all open gets exactly
/// `n` channels, and their tokens are pairwise distinct.
pub proof fn lemma_channel_count<C>(
    v: Seq<(u32, Option<C>)>,
    reg: ChannelRegistry<C>,
    tokens: Seq<usize>,
)
    requires
        forall|i: int| 0 <= i < v.len() ==> v[i].1 is Some,
        reg.wf(),
        reg.units() == v.map_values(|p: (u32, Option<C>)| p.0),
        tokens.len() == reg.units().len(),
        forall|t: int| 0 <= t < tokens.len() ==> tokens[t] == t,
    ensures
        reg.channels().len() == v.len(),
        tokens.len() == v.len(),
        tokens.no_duplicates(),
{
}

} // verus!
