//! Naming rules and outcome reports of the file-management operations.
use vstd::prelude::*;
use crate::model::FileOpResult;
use crate::text::{decimal, decimal_string};

verus! {

/// The name a file takes in the Trash when its own is taken there:
/// `<stem> <counter>` followed by the file's extension, if it has one.
pub open spec fn trash_name_of(stem: Seq<char>, counter: nat, ext: Option<Seq<char>>) -> Seq<char> {
    let base = stem + " "@ + decimal(counter);
    match ext {
        Some(e) => base + "."@ + e,
        None => base,
    }
}

/// The name a file takes in the Trash, on the `counter`-th try, when its own
/// name is taken there.
pub fn trash_name(stem: &str, counter: u64, ext: Option<&str>) -> (r: String)
    ensures
        r@ == trash_name_of(stem@, counter as nat, match ext { Some(e) => Some(e@), None => None }),
{
    let mut r = String::from_str(stem);
    r.append(" ");
    let n = decimal_string(counter);
    r.append(n.as_str());
    match ext {
        Some(e) => {
            r.append(".");
            r.append(e);
        },
        None => {},
    }
    r
}

/// A file-management operation that works item by item.
#[derive(PartialEq, Eq, Structural, Clone, Copy, Debug)]
pub enum FileOp {
    Move,
    Copy,
    Trash,
}

/// The parts joined with `sep` between each two.
pub open spec fn joined(parts: Seq<Seq<char>>, sep: Seq<char>) -> Seq<char>
    decreases parts.len(),
{
    if parts.len() == 0 {
        Seq::empty()
    } else if parts.len() == 1 {
        parts[0]
    } else {
        joined(parts.drop_last(), sep) + sep + parts.last()
    }
}

/// The text of each error.
pub open spec fn texts(errors: Seq<String>) -> Seq<Seq<char>> {
    errors.map_values(|e: String| e@)
}

/// The summary of an operation that handled `done` items and met `errors`.
pub open spec fn op_message(op: FileOp, done: nat, errors: Seq<String>) -> Seq<char> {
    let n = decimal(done);
    let k = decimal(errors.len());
    match op {
        FileOp::Move => if errors.len() == 0 {
            "Moved "@ + n + " files"@
        } else {
            "Moved "@ + n + " files, "@ + k + " errors: "@ + joined(texts(errors), "; "@)
        },
        FileOp::Copy => if errors.len() == 0 {
            "Copied "@ + n + " files"@
        } else {
            "Copied "@ + n + " files, "@ + k + " errors"@
        },
        FileOp::Trash => if errors.len() == 0 {
            "Moved "@ + n + " items to Trash"@
        } else {
            "Trashed "@ + n + " items, "@ + k + " errors"@
        },
    }
}

/// The error texts joined with `sep` between each two.
pub fn join_texts(errors: &Vec<String>, sep: &str) -> (r: String)
    ensures
        r@ == joined(texts(errors@), sep@),
{
    let mut r = String::new();
    let mut i: usize = 0;
    while i < errors.len()
        invariant
            i <= errors@.len(),
            r@ == joined(texts(errors@.take(i as int)), sep@),
        decreases errors@.len() - i,
    {
        let ghost before = texts(errors@.take(i as int));
        let ghost after = texts(errors@.take(i as int + 1));
        assert(after.drop_last() =~= before);
        assert(after.last() == errors@[i as int]@);
        if i > 0 {
            r.append(sep);
        } else {
            assert(after.len() == 1);
        }
        r.append(errors[i].as_str());
        i = i + 1;
    }
    assert(errors@.take(errors@.len() as int) =~= errors@);
    r
}

impl FileOpResult {
    /// The outcome of an operation that handled `done` items and met
    /// `errors`: it succeeded exactly when it met none.
    pub fn tally(op: FileOp, done: i32, errors: &Vec<String>) -> (r: FileOpResult)
        requires
            done >= 0,
        ensures
            r.success == (errors@.len() == 0),
            r.affected_count == done,
            r.message@ == op_message(op, done as nat, errors@),
    {
        let n = decimal_string(done as u64);
        let k = decimal_string(errors.len() as u64);
        let ok = errors.len() == 0;
        let m = match op {
            FileOp::Move => {
                let mut m = String::from_str("Moved ");
                m.append(n.as_str());
                if ok {
                    m.append(" files");
                } else {
                    m.append(" files, ");
                    m.append(k.as_str());
                    m.append(" errors: ");
                    let j = join_texts(errors, "; ");
                    m.append(j.as_str());
                }
                m
            },
            FileOp::Copy => {
                let mut m = String::from_str("Copied ");
                m.append(n.as_str());
                if ok {
                    m.append(" files");
                } else {
                    m.append(" files, ");
                    m.append(k.as_str());
                    m.append(" errors");
                }
                m
            },
            FileOp::Trash => {
                if ok {
                    let mut m = String::from_str("Moved ");
                    m.append(n.as_str());
                    m.append(" items to Trash");
                    m
                } else {
                    let mut m = String::from_str("Trashed ");
                    m.append(n.as_str());
                    m.append(" items, ");
                    m.append(k.as_str());
                    m.append(" errors");
                    m
                }
            },
        };
        FileOpResult { success: ok, message: m, affected_count: done }
    }
}

} // verus!
