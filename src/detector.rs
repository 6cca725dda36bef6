//! Change detection over fingerprints of rendered results.
use vstd::prelude::*;

verus! {

/// The SHA-1 digest of `data`, 20 bytes.
pub uninterp spec fn sha1_of(data: Seq<u8>) -> Seq<u8>;

/// Relies on `sha1::Sha1` (`new`, `update`, `digest`, `Digest::bytes`): the
/// 20-byte SHA-1 digest of the bytes fed to it, a function of those bytes
/// alone.
#[verifier::external_body]
fn sha1_digest(data: &[u8]) -> (digest: Vec<u8>)
    ensures
        digest@ == sha1_of(data@),
        digest@.len() == 20,
{
    let mut hasher = sha1::Sha1::new();
    hasher.update(data);
    hasher.digest().bytes().to_vec()
}

/// The fingerprint of a rendered result.
pub fn fingerprint(rendered: &[u8]) -> (fp: Vec<u8>)
    ensures
        fp@ == sha1_of(rendered@),
        fp@.len() == 20,
{
    sha1_digest(rendered)
}

/// Whether two byte strings are equal.
pub fn same_bytes(a: &[u8], b: &[u8]) -> (r: bool)
    ensures
        r == (a@ == b@),
{
    if a.len() != b.len() {
        return false;
    }
    let mut i: usize = 0;
    while i < a.len()
        invariant
            i <= a@.len(),
            a@.len() == b@.len(),
            a@.subrange(0, i as int) == b@.subrange(0, i as int),
        decreases a@.len() - i,
    {
        if a[i] != b[i] {
            assert(a@[i as int] != b@[i as int]);
            return false;
        }
        i = i + 1;
        assert(a@.subrange(0, i as int) =~= a@.subrange(0, i - 1).push(a@[i - 1]));
        assert(b@.subrange(0, i as int) =~= b@.subrange(0, i - 1).push(b@[i - 1]));
    }
    assert(a@ =~= a@.subrange(0, i as int));
    assert(b@ =~= b@.subrange(0, i as int));
    true
}

/// Whether a poll whose fingerprint is `fp` is reported, given the
/// fingerprint of the last reported result.
pub open spec fn is_change(last: Option<Seq<u8>>, fp: Seq<u8>) -> bool {
    last != Some(fp)
}

/// The fingerprint of the last reported result once a poll with fingerprint
/// `fp` has been judged.
pub open spec fn after_check(last: Option<Seq<u8>>, fp: Seq<u8>) -> Option<Seq<u8>> {
    if is_change(last, fp) {
        Some(fp)
    } else {
        last
    }
}

/// The fingerprint of the last reported result after the first `n` of the
/// fingerprints `fps` have been judged, starting with none.
pub open spec fn last_reported(fps: Seq<Seq<u8>>, n: nat) -> Option<Seq<u8>>
    decreases n,
{
    if n == 0 {
        None
    } else {
        after_check(last_reported(fps, (n - 1) as nat), fps[n - 1])
    }
}

/// Whether the poll at position `i` of a run with fingerprints `fps` is
/// reported.
pub open spec fn reported(fps: Seq<Seq<u8>>, i: nat) -> bool {
    is_change(last_reported(fps, i), fps[i as int])
}

/// The fingerprints of a run of rendered results.
pub open spec fn fingerprints(outs: Seq<Seq<u8>>) -> Seq<Seq<u8>> {
    outs.map_values(|o: Seq<u8>| sha1_of(o))
}

/// Remembers the fingerprint of the last reported result.
pub struct ChangeDetector {
    last: Option<Vec<u8>>,
}

impl View for ChangeDetector {
    type V = Option<Seq<u8>>;

    closed spec fn view(&self) -> Option<Seq<u8>> {
        match self.last {
            Some(fp) => Some(fp@),
            None => None,
        }
    }
}

impl ChangeDetector {
    /// A detector that has reported nothing yet.
    pub fn new() -> (d: ChangeDetector)
        ensures
            d@ is None,
    {
        ChangeDetector { last: None }
    }

    /// Judges a poll by its fingerprint: it is a change unless it matches the
    /// last reported fingerprint, and a change becomes the last reported one.
    pub fn check_fingerprint(&mut self, fp: Vec<u8>) -> (changed: bool)
        ensures
            changed == is_change(old(self)@, fp@),
            final(self)@ == after_check(old(self)@, fp@),
    {
        let same: bool = match &self.last {
            Some(last) => same_bytes(last.as_slice(), fp.as_slice()),
            None => false,
        };
        if same {
            false
        } else {
            self.last = Some(fp);
            true
        }
    }

    /// Judges a poll by its rendered result.
    pub fn check(&mut self, rendered: &[u8]) -> (changed: bool)
        ensures
            changed == is_change(old(self)@, sha1_of(rendered@)),
            final(self)@ == after_check(old(self)@, sha1_of(rendered@)),
    {
        let fp = fingerprint(rendered);
        self.check_fingerprint(fp)
    }
}

/// After one or more polls, the last reported fingerprint is that of the
/// latest poll.
proof fn lemma_last_reported_is_latest(fps: Seq<Seq<u8>>, n: nat)
    requires
        0 < n <= fps.len(),
    ensures
        last_reported(fps, n) == Some(fps[n - 1]),
{
}

/// The first poll is always reported.
pub proof fn lemma_first_poll_reported(fps: Seq<Seq<u8>>)
    requires
        fps.len() > 0,
    ensures
        reported(fps, 0),
{
}

/// A poll is reported exactly when its fingerprint differs from that of the
/// last reported poll before it, which is also that of the poll just before
/// it.
pub proof fn lemma_reported_on_change(fps: Seq<Seq<u8>>)
    ensures
        forall|i: int, j: int|
            0 <= j < i < fps.len() && #[trigger] reported(fps, j as nat) && (forall|k: int|
                j < k < i ==> !#[trigger] reported(fps, k as nat)) ==> (#[trigger] reported(fps, i as nat)
                <==> fps[i] != fps[j]),
        forall|i: int|
            0 < i < fps.len() ==> (#[trigger] reported(fps, i as nat) <==> fps[i] != fps[i - 1]),
{
    assert forall|i: int| 0 < i < fps.len() implies (#[trigger] reported(fps, i as nat) <==> fps[i]
        != fps[i - 1]) by {
        lemma_last_reported_is_latest(fps, i as nat);
    }
    assert forall|i: int, j: int|
        0 <= j < i < fps.len() && #[trigger] reported(fps, j as nat) && (forall|k: int|
            j < k < i ==> !#[trigger] reported(fps, k as nat)) implies (#[trigger] reported(fps, i as nat)
        <==> fps[i] != fps[j]) by {
        lemma_unreported_keep_value(fps, j, i);
        lemma_last_reported_is_latest(fps, i as nat);
    }
}

/// Polls that are not reported carry the value of the last reported one.
proof fn lemma_unreported_keep_value(fps: Seq<Seq<u8>>, j: int, i: int)
    requires
        0 <= j < i <= fps.len(),
        forall|k: int| j < k < i ==> !#[trigger] reported(fps, k as nat),
    ensures
        fps[i - 1] == fps[j],
    decreases i - j,
{
    if i - 1 > j {
        lemma_unreported_keep_value(fps, j, i - 1);
        assert(!reported(fps, (i - 1) as nat));
        lemma_last_reported_is_latest(fps, (i - 1) as nat);
    }
}

/// For rendered results whose fingerprints do not collide, a result is
/// reported exactly when it differs from the last reported result, and the
/// first one always is.
pub proof fn lemma_reported_on_changed_result(outs: Seq<Seq<u8>>)
    requires
        forall|a: int, b: int|
            0 <= a < outs.len() && 0 <= b < outs.len() && #[trigger] sha1_of(outs[a])
                == #[trigger] sha1_of(outs[b]) ==> outs[a] == outs[b],
    ensures
        outs.len() > 0 ==> reported(fingerprints(outs), 0),
        forall|i: int, j: int|
            0 <= j < i < outs.len() && #[trigger] reported(
                fingerprints(outs),
                j as nat,
            ) && (forall|k: int|
                j < k < i ==> !#[trigger] reported(fingerprints(outs), k as nat))
                ==> (#[trigger] reported(fingerprints(outs), i as nat)
                <==> outs[i] != outs[j]),
{
    let fps = fingerprints(outs);
    lemma_reported_on_change(fps);
    assert forall|i: int, j: int|
        0 <= j < i < outs.len() && #[trigger] reported(fps, j as nat) && (forall|k: int|
            j < k < i ==> !#[trigger] reported(fps, k as nat)) implies (#[trigger] reported(fps, i as nat)
        <==> outs[i] != outs[j]) by {
        assert(fps[i] == sha1_of(outs[i]));
        assert(fps[j] == sha1_of(outs[j]));
    }
}

} // verus!
