//! Ownership rules of a connection split into a read half and a write half.

use vstd::prelude::*;

verus! {

/// Which directions of the underlying connection one split half is
/// responsible for closing when it is released.
#[derive(Clone, Copy, PartialEq, Eq, Structural)]
pub struct StreamHalf {
    pub close_read: bool,
    pub close_write: bool,
}

/// The two halves of one split connection together close both directions
/// exactly once: one half owns the read direction, the other the write
/// direction, and neither owns both.
pub open spec fn split_pair_wf(read_half: StreamHalf, write_half: StreamHalf) -> bool {
    &&& read_half.close_read
    &&& !read_half.close_write
    &&& !write_half.close_read
    &&& write_half.close_write
}

/// The closing responsibilities handed to the two halves of a freshly
/// split connection: the first half closes only the read direction, the
/// second only the write direction.
pub fn split_responsibilities() -> (p: (StreamHalf, StreamHalf))
    ensures
        p.0 == (StreamHalf { close_read: true, close_write: false }),
        p.1 == (StreamHalf { close_read: false, close_write: true }),
        split_pair_wf(p.0, p.1),
{
    (
        StreamHalf { close_read: true, close_write: false },
        StreamHalf { close_read: false, close_write: true },
    )
}

/// Which directions of one underlying connection are still open.
#[derive(Clone, Copy, PartialEq, Eq, Structural)]
pub struct ConnectionState {
    pub read_open: bool,
    pub write_open: bool,
}

/// The state of a freshly accepted connection: open in both directions.
pub open spec fn spec_fresh_connection() -> ConnectionState {
    ConnectionState { read_open: true, write_open: true }
}

/// What releasing one half does to the connection: it shuts down exactly
/// the directions that half is responsible for and leaves the others as
/// they were.
pub open spec fn spec_release(half: StreamHalf, conn: ConnectionState) -> ConnectionState {
    ConnectionState {
        read_open: conn.read_open && !half.close_read,
        write_open: conn.write_open && !half.close_write,
    }
}

/// The direction state of a connection just split.
pub fn fresh_connection() -> (c: ConnectionState)
    ensures
        c == spec_fresh_connection(),
{
    ConnectionState { read_open: true, write_open: true }
}

/// Applies the release of `half` to the connection's direction state:
/// only the owned directions close.
pub fn release_half(half: &StreamHalf, conn: &ConnectionState) -> (c: ConnectionState)
    ensures
        c == spec_release(*half, *conn),
{
    ConnectionState {
        read_open: conn.read_open && !half.close_read,
        write_open: conn.write_open && !half.close_write,
    }
}

/// For the two halves of a split connection: releasing only the read half
/// closes just the read direction and the write half can still write;
/// releasing both, in either order, leaves the connection fully closed.
pub proof fn lemma_release_halves(read_half: StreamHalf, write_half: StreamHalf)
    requires
        split_pair_wf(read_half, write_half),
    ensures
        spec_release(read_half, spec_fresh_connection()) == (ConnectionState {
            read_open: false,
            write_open: true,
        }),
        spec_release(write_half, spec_fresh_connection()) == (ConnectionState {
            read_open: true,
            write_open: false,
        }),
        spec_release(write_half, spec_release(read_half, spec_fresh_connection()))
            == (ConnectionState { read_open: false, write_open: false }),
        spec_release(read_half, spec_release(write_half, spec_fresh_connection()))
            == (ConnectionState { read_open: false, write_open: false }),
{
}

} // verus!
