//! Reference discovery: enumerate a repository's local branches and render
//! them as the initial pkt-line advertisement.  Every branch becomes one
//! pkt-line with payload `<hex-object-id> <ref-name>\0`, and the
//! advertisement ends with one flush line.

use vstd::prelude::*;

use crate::pktline::{encode_flush, encode_line, spec_encode_line, spec_flush};
use crate::repo::{list_local_branches, RefRecord};
use crate::util::append_bytes;

verus! {

/// The payload of one advertised reference: id, space, name, NUL.
pub open spec fn ref_line(oid: Seq<u8>, name: Seq<u8>) -> Seq<u8> {
    oid + seq![32u8] + name + seq![0u8]
}

/// The mathematical view of a list of reference records.
pub open spec fn refs_view(rs: Seq<RefRecord>) -> Seq<(Seq<u8>, Seq<u8>)> {
    rs.map_values(|r: RefRecord| (r.oid@, r.name@))
}

/// Every reference line fits in a single pkt-line payload.
pub open spec fn refs_fit(refs: Seq<(Seq<u8>, Seq<u8>)>) -> bool {
    forall|i: int| 0 <= i < refs.len() ==> refs[i].0.len() + refs[i].1.len() <= 65514
}

/// The concatenated pkt-lines of the references, without the flush line.
pub open spec fn spec_adv_lines(refs: Seq<(Seq<u8>, Seq<u8>)>) -> Seq<u8>
    decreases refs.len(),
{
    if refs.len() == 0 {
        Seq::empty()
    } else {
        spec_encode_line(ref_line(refs[0].0, refs[0].1)) + spec_adv_lines(refs.drop_first())
    }
}

/// A full advertisement: one pkt-line per reference, then the flush line.
pub open spec fn spec_advertisement(refs: Seq<(Seq<u8>, Seq<u8>)>) -> Seq<u8> {
    spec_adv_lines(refs) + spec_flush()
}

/// The buffer is the advertisement of some list of references.
pub open spec fn is_advertisement(b: Seq<u8>) -> bool {
    exists|refs: Seq<(Seq<u8>, Seq<u8>)>| refs_fit(refs) && b == spec_advertisement(refs)
}

proof fn lemma_adv_lines_push(refs: Seq<(Seq<u8>, Seq<u8>)>, x: (Seq<u8>, Seq<u8>))
    ensures
        spec_adv_lines(refs.push(x)) == spec_adv_lines(refs) + spec_encode_line(
            ref_line(x.0, x.1),
        ),
    decreases refs.len(),
{
    if refs.len() == 0 {
        assert(refs.push(x).drop_first() =~= Seq::<(Seq<u8>, Seq<u8>)>::empty());
        assert(refs.push(x)[0] == x);
        assert(spec_adv_lines(refs.push(x)) == spec_encode_line(ref_line(x.0, x.1))
            + spec_adv_lines(refs.push(x).drop_first()));
        assert(spec_adv_lines(refs.push(x).drop_first()) =~= Seq::<u8>::empty());
        assert(spec_adv_lines(refs) =~= Seq::<u8>::empty());
        assert(spec_adv_lines(refs.push(x)) =~= spec_adv_lines(refs) + spec_encode_line(
            ref_line(x.0, x.1),
        ));
    } else {
        lemma_adv_lines_push(refs.drop_first(), x);
        assert(refs.push(x).drop_first() =~= refs.drop_first().push(x));
        assert(refs.push(x)[0] == refs[0]);
        assert(spec_adv_lines(refs.push(x)) == spec_encode_line(
            ref_line(refs[0].0, refs[0].1),
        ) + spec_adv_lines(refs.drop_first().push(x)));
        assert(spec_adv_lines(refs.push(x)) =~= spec_adv_lines(refs) + spec_encode_line(
            ref_line(x.0, x.1),
        ));
    }
}

/// Render the advertisement of the given references: one pkt-line per
/// reference in order, each with payload `<oid> <name>\0`, then one flush
/// line.  `None` exactly when some reference line would not fit a pkt-line.
pub fn advertisement(refs: &Vec<RefRecord>) -> (r: Option<Vec<u8>>)
    ensures
        (r is Some) <==> refs_fit(refs_view(refs@)),
        r matches Some(b) ==> b@ == spec_advertisement(refs_view(refs@)),
{
    let mut out: Vec<u8> = Vec::new();
    let mut i: usize = 0;
    while i < refs.len()
        invariant
            i <= refs@.len(),
            out@ == spec_adv_lines(refs_view(refs@).subrange(0, i as int)),
            forall|k: int|
                0 <= k < i ==> refs_view(refs@)[k].0.len() + refs_view(refs@)[k].1.len() <= 65514,
        decreases refs@.len() - i,
    {
        let oid_len = refs[i].oid.len();
        if oid_len > 65514 {
            assert(refs_view(refs@)[i as int].0.len() > 65514);
            return None;
        }
        if refs[i].name.len() > 65514 - oid_len {
            assert(refs_view(refs@)[i as int].0.len() + refs_view(refs@)[i as int].1.len()
                > 65514);
            return None;
        }
        let mut payload: Vec<u8> = Vec::new();
        append_bytes(&mut payload, &refs[i].oid);
        payload.push(32);
        append_bytes(&mut payload, &refs[i].name);
        payload.push(0);
        assert(payload@ =~= ref_line(refs@[i as int].oid@, refs@[i as int].name@));
        let line = encode_line(&payload);
        append_bytes(&mut out, &line);
        proof {
            lemma_adv_lines_push(
                refs_view(refs@).subrange(0, i as int),
                refs_view(refs@)[i as int],
            );
            assert(refs_view(refs@).subrange(0, i as int).push(refs_view(refs@)[i as int])
                =~= refs_view(refs@).subrange(0, i + 1));
            assert(out@ =~= spec_adv_lines(refs_view(refs@).subrange(0, i + 1)));
        }
        i = i + 1;
    }
    assert(refs_view(refs@).subrange(0, refs@.len() as int) =~= refs_view(refs@));
    let flush = encode_flush();
    append_bytes(&mut out, &flush);
    assert(out@ =~= spec_advertisement(refs_view(refs@)));
    Some(out)
}

/// Enumerate the repository's local branches and render their
/// advertisement.  `None` when the branches cannot be read from disk or a
/// branch line would not fit a pkt-line; the repository handle stays usable
/// either way.
pub fn reference_discovery(repo: &gix::Repository) -> (r: Option<Vec<u8>>)
    ensures
        r matches Some(b) ==> is_advertisement(b@),
{
    match list_local_branches(repo) {
        Ok(branches) => {
            match advertisement(&branches) {
                Some(b) => {
                    proof {
                        assert(refs_fit(refs_view(branches@)) && b@ == spec_advertisement(
                            refs_view(branches@),
                        ));
                    }
                    Some(b)
                },
                None => None,
            }
        },
        Err(_) => None,
    }
}

} // verus!
