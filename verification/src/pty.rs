use vstd::prelude::*;

verus! {

/// What the reader of a shell's output reports.
#[derive(Debug)]
pub enum PtyEvent {
    /// Output bytes.
    Data(Vec<u8>),
    /// The shell's output ended (0) or could not be read (-1).
    Exit(i32),
}

/// The event one read of the shell's output gives, and whether reading goes on: `Some(n)` is a
/// read of `n` bytes into `buf` (0 at the end of the output), `None` a failed read.
pub fn event_for_read(outcome: Option<usize>, buf: &[u8]) -> (r: (PtyEvent, bool))
    requires
        outcome matches Some(n) ==> n <= buf@.len(),
    ensures
        match outcome {
            None => r.0 matches PtyEvent::Exit(c) && c == -1 && !r.1,
            Some(n) => if n == 0 {
                r.0 matches PtyEvent::Exit(c) && c == 0 && !r.1
            } else {
                r.0 matches PtyEvent::Data(d) && d@ == buf@.take(n as int) && r.1
            },
        },
{
    match outcome {
        None => (PtyEvent::Exit(-1), false),
        Some(0) => (PtyEvent::Exit(0), false),
        Some(n) => {
            let mut data: Vec<u8> = Vec::new();
            let mut i: usize = 0;
            while i < n
                invariant
                    i <= n,
                    n <= buf@.len(),
                    data@ == buf@.take(i as int),
                decreases n - i,
            {
                data.push(buf[i]);
                i = i + 1;
                assert(data@ =~= buf@.take(i as int));
            }
            (PtyEvent::Data(data), true)
        },
    }
}

} // verus!
