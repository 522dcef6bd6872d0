use vstd::prelude::*;

verus! {

/// A JSON document, as the quote sources' responses are read.
///
/// A number is held as its decimal text, which is also what a log receives;
/// an object keeps its members in document order.
#[derive(Debug)]
pub enum Json {
    Null,
    Bool(bool),
    Number(String),
    Text(String),
    Array(Vec<Json>),
    Object(Vec<(String, Json)>),
}

/// One step of an extraction path: an object key or an array index.
#[derive(Debug, Clone, PartialEq, Eq)]
pub enum Segment {
    Key(String),
    Index(usize),
}

/// What a path step stands for, with the key as a character sequence.
pub ghost enum PathStep {
    Key(Seq<char>),
    Index(nat),
}

impl View for Segment {
    type V = PathStep;

    open spec fn view(&self) -> PathStep {
        match self {
            Segment::Key(k) => PathStep::Key(k@),
            Segment::Index(i) => PathStep::Index(*i as nat),
        }
    }
}

/// The views of the steps of a path.
pub open spec fn path_view(path: Seq<Segment>) -> Seq<PathStep> {
    path.map_values(|s: Segment| s@)
}

/// The value of the first member of `members` whose key is `key`.
pub open spec fn member(members: Seq<(String, Json)>, key: Seq<char>) -> Option<Json>
    decreases members.len(),
{
    if members.len() == 0 {
        None
    } else if members[0].0@ == key {
        Some(members[0].1)
    } else {
        member(members.drop_first(), key)
    }
}

/// The value that one step leads to from `doc`, if the step fits its shape.
pub open spec fn step(doc: Json, s: PathStep) -> Option<Json> {
    match s {
        PathStep::Key(k) => match doc {
            Json::Object(members) => member(members@, k),
            _ => None,
        },
        PathStep::Index(i) => match doc {
            Json::Array(items) => if i < items@.len() {
                Some(items@[i as int])
            } else {
                None
            },
            _ => None,
        },
    }
}

/// The value that a whole path leads to from `doc`, if every step fits.
pub open spec fn resolve(doc: Json, path: Seq<PathStep>) -> Option<Json>
    decreases path.len(),
{
    if path.len() == 0 {
        Some(doc)
    } else {
        match step(doc, path[0]) {
            Some(next) => resolve(next, path.drop_first()),
            None => None,
        }
    }
}

/// The decimal text of the number that a path leads to, if it leads to a number.
pub open spec fn number_at(doc: Json, path: Seq<PathStep>) -> Option<Seq<char>> {
    match resolve(doc, path) {
        Some(Json::Number(t)) => Some(t@),
        _ => None,
    }
}

proof fn lemma_resolve_split(doc: Json, path: Seq<PathStep>, i: int, cur: Json)
    requires
        0 <= i < path.len(),
        resolve(doc, path) == resolve(cur, path.skip(i)),
    ensures
        resolve(doc, path) == match step(cur, path[i]) {
            Some(next) => resolve(next, path.skip(i + 1)),
            None => None,
        },
{
    assert(path.skip(i)[0] == path[i]);
    assert(path.skip(i).drop_first() =~= path.skip(i + 1));
}

/// Finds the member named `key`, as `member` describes.
fn find_member<'a>(members: &'a Vec<(String, Json)>, key: &String) -> (r: Option<&'a Json>)
    ensures
        r matches Some(v) ==> member(members@, key@) == Some(*v),
        r is None ==> member(members@, key@) is None,
{
    let mut j: usize = 0;
    assert(members@.skip(0) =~= members@);
    while j < members.len()
        invariant
            j <= members@.len(),
            member(members@, key@) == member(members@.skip(j as int), key@),
        decreases members@.len() - j,
    {
        assert(members@.skip(j as int)[0] == members@[j as int]);
        assert(members@.skip(j as int).drop_first() =~= members@.skip(j + 1));
        if members[j].0 == *key {
            return Some(&members[j].1);
        }
        j = j + 1;
    }
    None
}

/// Follows `path` from `doc`; the value reached, or `None` where a step does
/// not fit the document's shape.
pub fn follow<'a>(doc: &'a Json, path: &Vec<Segment>) -> (r: Option<&'a Json>)
    ensures
        r matches Some(v) ==> resolve(*doc, path_view(path@)) == Some(*v),
        r is None ==> resolve(*doc, path_view(path@)) is None,
{
    let ghost steps = path_view(path@);
    let mut cur: &Json = doc;
    let mut i: usize = 0;
    assert(steps.skip(0) =~= steps);
    while i < path.len()
        invariant
            steps == path_view(path@),
            i <= path@.len(),
            resolve(*doc, steps) == resolve(*cur, steps.skip(i as int)),
        decreases path@.len() - i,
    {
        proof {
            lemma_resolve_split(*doc, steps, i as int, *cur);
        }
        let next = match &path[i] {
            Segment::Key(k) => match cur {
                Json::Object(members) => find_member(members, k),
                _ => None,
            },
            Segment::Index(n) => match cur {
                Json::Array(items) => if *n < items.len() {
                    Some(&items[*n])
                } else {
                    None
                },
                _ => None,
            },
        };
        match next {
            Some(v) => {
                cur = v;
            },
            None => {
                return None;
            },
        }
        i = i + 1;
    }
    assert(steps.skip(i as int).len() == 0);
    Some(cur)
}

} // verus!
