//! Rewriting of the authorities that the cluster hands out into authorities
//! that the client can reach.

use std::sync::Arc;
use vstd::prelude::*;
use vstd::string::StringExecFns;
use crate::error::Result;
use crate::text::{owned, str_eq};
use crate::uri::{authority_valid, check_authority, Uri, UriView};

verus! {

/// The mapping that a list of entries stands for: a later entry replaces an
/// earlier one with the same key.
pub open spec fn entries_map(s: Seq<(Seq<char>, Seq<char>)>) -> Map<Seq<char>, Seq<char>>
    decreases s.len(),
{
    if s.len() == 0 {
        Map::empty()
    } else {
        entries_map(s.drop_last()).insert(s.last().0, s.last().1)
    }
}

/// The entries as plain text.
pub open spec fn entries_view(v: Seq<(String, String)>) -> Seq<(Seq<char>, Seq<char>)> {
    Seq::new(v.len(), |i: int| (v[i].0@, v[i].1@))
}

/// The URI after translation: where the map knows the authority, the
/// replacement stands in its place; everything else is as it was.
pub open spec fn translated(m: Map<Seq<char>, Seq<char>>, u: UriView) -> UriView {
    match u.authority {
        Some(a) => if m.dom().contains(a) {
            UriView { scheme: u.scheme, authority: Some(m[a]), path_and_query: u.path_and_query }
        } else {
            u
        },
        None => u,
    }
}

/// A URI whose authority the map does not know is left as it is.
pub proof fn lemma_translate_unmapped(m: Map<Seq<char>, Seq<char>>, u: UriView)
    requires
        u.authority is Some ==> !m.dom().contains(u.authority->0),
    ensures
        translated(m, u) == u,
{
}

/// An empty map translates nothing.
pub proof fn lemma_translate_empty(u: UriView)
    ensures
        translated(Map::empty(), u) == u,
{
}

/// A mapping from authority (`host:port`) to the authority to use in its place.
pub struct NatMap {
    natmap: Vec<(String, String)>,
}

impl View for NatMap {
    type V = Map<Seq<char>, Seq<char>>;

    closed spec fn view(&self) -> Map<Seq<char>, Seq<char>> {
        entries_map(entries_view(self.natmap@))
    }
}

impl NatMap {
    /// Builds the map from `(authority, replacement)` pairs. Fails at the
    /// first replacement that is no authority, naming its key.
    pub fn new(src: Vec<(String, String)>) -> (r: Result<NatMap>)
        ensures
            match r {
                Ok(m) => m@ == entries_map(entries_view(src@)) && forall|i: int|
                    0 <= i < src.len() ==> authority_valid(#[trigger] src[i].1@),
                Err(e) => exists|i: int|
                    0 <= i < src.len() && !authority_valid(#[trigger] src[i].1@) && (forall|j: int|
                        0 <= j < i ==> authority_valid(#[trigger] src[j].1@)) && e.spec_msg()
                        is Some && e.spec_msg()->0@ == "cannot parse NAT value for k="@
                        + src[i].0@ && e.spec_cause() is HttpInvalidUri,
            },
    {
        let mut i: usize = 0;
        while i < src.len()
            invariant
                i <= src.len(),
                forall|j: int| 0 <= j < i ==> authority_valid(#[trigger] src[j].1@),
            decreases src.len() - i,
        {
            match check_authority(src[i].1.as_str()) {
                Ok(()) => {},
                Err(e) => {
                    let mut msg = owned("cannot parse NAT value for k=");
                    msg.append(src[i].0.as_str());
                    return Err(e.with_msg_prepended(msg));
                },
            }
            i = i + 1;
        }
        Ok(NatMap { natmap: src })
    }

    pub fn is_empty(&self) -> (r: bool)
        ensures
            r == (self@ == Map::<Seq<char>, Seq<char>>::empty()),
    {
        let r = self.natmap.len() == 0;
        proof {
            if !r {
                let s = entries_view(self.natmap@);
                assert(entries_map(s).dom().contains(s.last().0));
            }
        }
        r
    }

    /// The replacement for an authority, if the map has one.
    pub fn get(&self, key: &str) -> (r: Option<&String>)
        ensures
            r is Some <==> self@.dom().contains(key@),
            r is Some ==> r->0@ == self@[key@],
    {
        let mut i: usize = self.natmap.len();
        let ghost s = entries_view(self.natmap@);
        assert(s.take(i as int) =~= s);
        while i > 0
            invariant
                i <= self.natmap.len(),
                s == entries_view(self.natmap@),
                entries_map(s).dom().contains(key@) <==> entries_map(s.take(i as int)).dom().contains(
                    key@,
                ),
                entries_map(s).dom().contains(key@) ==> entries_map(s)[key@] == entries_map(
                    s.take(i as int),
                )[key@],
            decreases i,
        {
            let ghost t = s.take(i as int);
            assert(t.drop_last() =~= s.take(i - 1));
            assert(t.last() == s[i - 1]);
            assert(entries_map(t) == entries_map(t.drop_last()).insert(t.last().0, t.last().1));
            i = i - 1;
            if str_eq(self.natmap[i].0.as_str(), key) {
                return Some(&self.natmap[i].1);
            }
        }
        assert(s.take(0) =~= Seq::empty());
        None
    }

    /// Rewrites the authority of `uri` where the map knows it.
    pub fn translate(&self, uri: Uri) -> (r: Result<Uri>)
        ensures
            r is Ok,
            r->Ok_0@ == translated(self@, uri@),
    {
        proof {
            use_type_invariant(&uri);
        }
        if self.is_empty() {
            Ok(uri)
        } else {
            let found = match uri.authority() {
                Some(s) => match self.get(s) {
                    Some(replacement) => Some(replacement.clone()),
                    None => None,
                },
                None => None,
            };
            match found {
                Some(replacement) => {
                    let ghost before = uri@;
                    let (scheme, _authority, path_and_query) = uri.into_parts();
                    match Uri::from_parts(scheme, Some(replacement), path_and_query) {
                        Ok(u) => Ok(u),
                        Err(e) => Err(
                            e.with_msg_prepended(owned("Could not assemble redirect uri after NAT")),
                        ),
                    }
                },
                None => Ok(uri),
            }
        }
    }
}

/// Calls `Arc::clone`, which hands out another pointer to the same value.
#[verifier::external_body]
fn share(a: &Arc<NatMap>) -> (r: Arc<NatMap>)
    ensures
        r == *a,
{
    a.clone()
}

/// A shared, immutable map; `None` stands for the empty map.
pub struct NatMapPtr {
    ptr: Option<Arc<NatMap>>,
}

impl View for NatMapPtr {
    type V = Map<Seq<char>, Seq<char>>;

    closed spec fn view(&self) -> Map<Seq<char>, Seq<char>> {
        match self.ptr {
            Some(p) => p@,
            None => Map::empty(),
        }
    }
}

impl NatMapPtr {
    pub fn new(natmap: NatMap) -> (r: NatMapPtr)
        ensures
            r@ == natmap@,
    {
        NatMapPtr {
            ptr: if natmap.is_empty() {
                None
            } else {
                Some(Arc::new(natmap))
            },
        }
    }

    /// Another pointer to the same map.
    pub fn duplicate(&self) -> (r: NatMapPtr)
        ensures
            r@ == self@,
    {
        NatMapPtr {
            ptr: match &self.ptr {
                Some(p) => Some(share(p)),
                None => None,
            },
        }
    }

    pub fn empty() -> (r: NatMapPtr)
        ensures
            r@ == Map::<Seq<char>, Seq<char>>::empty(),
    {
        NatMapPtr { ptr: None }
    }

    /// Rewrites the authority of `uri` where the map knows it.
    pub fn translate(&self, uri: Uri) -> (r: Result<Uri>)
        ensures
            r is Ok,
            r->Ok_0@ == translated(self@, uri@),
    {
        if let Some(p) = &self.ptr {
            p.translate(uri)
        } else {
            Ok(uri)
        }
    }
}

} // verus!
