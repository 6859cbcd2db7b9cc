//! Properties that relate several operations of the clipboard handle, stated
//! over the contracts of `connect`, `unconnected`, `read` and `write`.

use vstd::prelude::*;

use crate::clipboard::{
    connection_after, read_post, text_of, write_post, Connection, SessionLockClipboard,
};
use crate::platform::WriteAttempt;
use iced_core::clipboard::Kind;

verus! {

/// A handle that starts unavailable, as `unconnected` builds it, stays
/// unavailable through any sequence of writes: none of them reaches the
/// platform or reports a diagnostic, and a read at the end yields nothing.
/// `trace[i]` is the handle before the `i`-th write, which wrote
/// `contents[i]` to `kinds[i]` and reported `diagnostics[i]`.
pub proof fn unconnected_never_reads(
    trace: Seq<SessionLockClipboard>,
    kinds: Seq<Kind>,
    contents: Seq<Seq<char>>,
    diagnostics: Seq<Option<String>>,
    r: Option<String>,
)
    requires
        trace.len() == diagnostics.len() + 1,
        kinds.len() == diagnostics.len(),
        contents.len() == diagnostics.len(),
        trace[0]@ == Connection::Unavailable,
        forall|i: int|
            0 <= i < diagnostics.len() ==> write_post(
                #[trigger] trace[i],
                trace[i + 1],
                kinds[i],
                contents[i],
                diagnostics[i],
            ),
        read_post(trace.last()@, r),
    ensures
        r is None,
        forall|i: int| 0 <= i < diagnostics.len() ==> #[trigger] diagnostics[i] is None,
        trace.last().writes() == trace[0].writes(),
{
    writes_keep_unavailable(trace, kinds, contents, diagnostics, trace.len() - 1);
    assert forall|i: int| 0 <= i < diagnostics.len() implies #[trigger] diagnostics[i] is None by {
        writes_keep_unavailable(trace, kinds, contents, diagnostics, i);
        assert(write_post(trace[i], trace[i + 1], kinds[i], contents[i], diagnostics[i]));
    }
}

/// Each handle along a trace of writes from an unavailable handle is
/// unavailable, with the record it started with.
proof fn writes_keep_unavailable(
    trace: Seq<SessionLockClipboard>,
    kinds: Seq<Kind>,
    contents: Seq<Seq<char>>,
    diagnostics: Seq<Option<String>>,
    k: int,
)
    requires
        trace.len() == diagnostics.len() + 1,
        kinds.len() == diagnostics.len(),
        contents.len() == diagnostics.len(),
        trace[0]@ == Connection::Unavailable,
        forall|i: int|
            0 <= i < diagnostics.len() ==> write_post(
                #[trigger] trace[i],
                trace[i + 1],
                kinds[i],
                contents[i],
                diagnostics[i],
            ),
        0 <= k < trace.len(),
    ensures
        trace[k]@ == Connection::Unavailable,
        trace[k].writes() == trace[0].writes(),
    decreases k,
{
    if k > 0 {
        writes_keep_unavailable(trace, kinds, contents, diagnostics, k - 1);
        assert(write_post(trace[k - 1], trace[k], kinds[k - 1], contents[k - 1], diagnostics[k - 1]));
    }
}

/// On an unavailable handle, a write of `contents` followed by a read never
/// yields `contents`: no copy is kept in memory, and nothing reaches a platform.
pub proof fn unavailable_write_then_read(
    before: SessionLockClipboard,
    after: SessionLockClipboard,
    kind: Kind,
    contents: String,
    diagnostic: Option<String>,
    r: Option<String>,
)
    requires
        before@ == Connection::Unavailable,
        write_post(before, after, kind, contents@, diagnostic),
        read_post(after@, r),
    ensures
        r != Some(contents),
        diagnostic is None,
        after.writes() == before.writes(),
{
}

/// On a connected handle, a write hands `contents`, unchanged, to the
/// platform's write for `kind`, exactly once, and keeps the connection.
pub proof fn connected_write_reaches_platform_once(
    before: SessionLockClipboard,
    after: SessionLockClipboard,
    kind: Kind,
    contents: Seq<char>,
    diagnostic: Option<String>,
)
    requires
        before@ == Connection::Connected,
        write_post(before, after, kind, contents, diagnostic),
    ensures
        after@ == Connection::Connected,
        after.writes().len() == before.writes().len() + 1,
        after.writes().subrange(0, before.writes().len() as int) == before.writes(),
        after.writes().last().0 == kind,
        after.writes().last().1 == contents,
{
    assert(after.writes().subrange(0, before.writes().len() as int) =~= before.writes());
}

/// On a connected handle whose platform accepts a standard write, the write
/// reports nothing and hands `contents` to the standard clipboard; a read of
/// the standard clipboard that the platform answers with that text yields it.
pub proof fn working_platform_round_trip(
    before: SessionLockClipboard,
    after: SessionLockClipboard,
    contents: String,
    diagnostic: Option<String>,
)
    requires
        before@ == Connection::Connected,
        write_post(before, after, Kind::Standard, contents@, diagnostic),
        after.writes().last().2 == Some(Ok::<(), String>(())),
    ensures
        diagnostic is None,
        after.writes() == before.writes().push((Kind::Standard, contents@, Some(Ok::<(), String>(())))),
        text_of(Some(Ok(contents))) == Some(contents),
{
}

/// On a connected handle whose platform has no primary selection, a primary
/// write raises nothing and hands nothing to the standard clipboard: every
/// standard write on record was there before.
pub proof fn unsupported_primary_write_is_silent(
    before: SessionLockClipboard,
    after: SessionLockClipboard,
    contents: Seq<char>,
    diagnostic: Option<String>,
)
    requires
        before@ == Connection::Connected,
        write_post(before, after, Kind::Primary, contents, diagnostic),
        after.writes().last().2 is None,
    ensures
        diagnostic is None,
        after.writes() == before.writes().push((Kind::Primary, contents, None::<Result<(), String>>)),
        forall|i: int|
            0 <= i < after.writes().len() && (#[trigger] after.writes()[i]).0 == Kind::Standard
                ==> i < before.writes().len() && after.writes()[i] == before.writes()[i],
{
}

/// On a connected handle whose platform refuses a standard write with
/// `message`, the write reports exactly that message, once, makes one
/// attempt only, and leaves the handle's connection as it was.
pub proof fn failed_write_reports_once(
    before: SessionLockClipboard,
    after: SessionLockClipboard,
    contents: Seq<char>,
    message: String,
    diagnostic: Option<String>,
)
    requires
        before@ == Connection::Connected,
        write_post(before, after, Kind::Standard, contents, diagnostic),
        after.writes().last().2 == Some(Err::<(), String>(message)),
    ensures
        diagnostic == Some(message),
        after@ == before@,
        after.writes() == before.writes().push((Kind::Standard, contents, Some(Err::<(), String>(message)))),
{
}

/// A handle built from a failed connection attempt is indistinguishable from
/// one built by `unconnected`: the same connection and record, and so the
/// same reads and writes.
pub proof fn failed_connect_matches_unconnected(failed: SessionLockClipboard, blank: SessionLockClipboard)
    requires
        failed@ == connection_after(false),
        failed.writes() == Seq::<WriteAttempt>::empty(),
        blank@ == Connection::Unavailable,
        blank.writes() == Seq::<WriteAttempt>::empty(),
    ensures
        failed@ == blank@,
        forall|r: Option<String>| read_post(failed@, r) == read_post(blank@, r),
        forall|after: SessionLockClipboard, kind: Kind, contents: Seq<char>, d: Option<String>|
            write_post(failed, after, kind, contents, d) == write_post(blank, after, kind, contents, d),
{
}

} // verus!
