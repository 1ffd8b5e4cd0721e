use vstd::prelude::*;

verus! {

/// The kind of a filesystem change event, as the watch facility reports it.
#[derive(Clone, Copy, Debug, PartialEq, Eq)]
pub enum EventKind {
    Created,
    Modified,
    Removed,
    Other,
}

/// A filesystem change event: its kind and the affected paths, each path
/// given as the bytes of its textual form.
pub struct ChangeEvent {
    pub kind: EventKind,
    pub paths: Vec<Vec<u8>>,
}

/// The path component separator byte, `/`.
pub const SEPARATOR: u8 = 0x2f;

/// The dot byte, `.`.
pub const DOT: u8 = 0x2e;

/// The watched file extension, the bytes of `dart`.
pub open spec fn watched_extension() -> Seq<u8> {
    seq![0x64u8, 0x61u8, 0x72u8, 0x74u8]
}

/// A path carries the watched extension when its final component ends in a
/// dot followed by exactly the extension bytes, with a non-empty stem before
/// the dot. This mirrors the platform rule for a file name's extension: a
/// component that is nothing but a dot and the extension has no stem and so
/// no extension at all.
pub open spec fn has_watched_extension(p: Seq<u8>) -> bool {
    exists|d: int|
        1 <= d < p.len() && #[trigger] p[d] == DOT && p[d - 1] != SEPARATOR && p.subrange(
            d + 1,
            p.len() as int,
        ) == watched_extension()
}

/// Whether the path, given as bytes, names a file with the watched extension.
pub fn path_has_watched_extension(p: &Vec<u8>) -> (b: bool)
    ensures
        b == has_watched_extension(p@),
{
    let n = p.len();
    if n < 6 {
        proof {
            assert(!has_watched_extension(p@)) by {
                if has_watched_extension(p@) {
                    let d = choose|d: int|
                        1 <= d < p@.len() && #[trigger] p@[d] == DOT && p@[d - 1] != SEPARATOR
                            && p@.subrange(d + 1, p@.len() as int) == watched_extension();
                    assert(p@.subrange(d + 1, p@.len() as int).len() == watched_extension().len());
                }
            }
        }
        return false;
    }
    let d = n - 5;
    let hit = p[d] == DOT && p[d - 1] != SEPARATOR && p[d + 1] == 0x64 && p[d + 2] == 0x61 && p[d
        + 3] == 0x72 && p[d + 4] == 0x74;
    proof {
        if hit {
            assert(p@.subrange(d + 1 as int, n as int) =~= watched_extension());
            assert(has_watched_extension(p@));
        } else {
            assert(!has_watched_extension(p@)) by {
                if has_watched_extension(p@) {
                    let w = choose|w: int|
                        1 <= w < p@.len() && #[trigger] p@[w] == DOT && p@[w - 1] != SEPARATOR
                            && p@.subrange(w + 1, p@.len() as int) == watched_extension();
                    assert(p@.subrange(w + 1, p@.len() as int).len() == watched_extension().len());
                    assert(w == d);
                    assert(p@[w + 1] == p@.subrange(w + 1, p@.len() as int)[0]);
                    assert(p@[w + 2] == p@.subrange(w + 1, p@.len() as int)[1]);
                    assert(p@[w + 3] == p@.subrange(w + 1, p@.len() as int)[2]);
                    assert(p@[w + 4] == p@.subrange(w + 1, p@.len() as int)[3]);
                }
            }
        }
    }
    hit
}

/// An event asks for a reload exactly when it reports a modification and at
/// least one affected path carries the watched extension. Creations,
/// removals and other kinds never ask for one, nor does a modification that
/// touches no watched file.
pub open spec fn event_matches(e: ChangeEvent) -> bool {
    &&& e.kind is Modified
    &&& exists|i: int| 0 <= i < e.paths@.len() && has_watched_extension(e.paths@[i]@)
}

/// Whether the event reports a modification of at least one watched file.
pub fn event_is_relevant(e: &ChangeEvent) -> (b: bool)
    ensures
        b == event_matches(*e),
{
    match e.kind {
        EventKind::Modified => {},
        _ => {
            return false;
        },
    }
    let mut i: usize = 0;
    while i < e.paths.len()
        invariant
            i <= e.paths@.len(),
            e.kind is Modified,
            forall|j: int| 0 <= j < i ==> !has_watched_extension(e.paths@[j]@),
        decreases e.paths@.len() - i,
    {
        if path_has_watched_extension(&e.paths[i]) {
            return true;
        }
        i = i + 1;
    }
    false
}

} // verus!
