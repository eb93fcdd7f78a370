//! Paths of files and devices.

use vstd::prelude::*;
use vstd::string::*;

use crate::text::same;

verus! {

/// Whether a path starts at the root.
pub open spec fn is_absolute(path: Seq<u8>) -> bool {
    path.len() > 0 && path[0] == 47
}

/// A path, and below it another one.
pub open spec fn joined(base: Seq<u8>, below: Seq<u8>) -> Seq<u8> {
    if base.len() > 0 && base.last() != 47 {
        base + seq![47u8] + below
    } else {
        base + below
    }
}

/// What tells a path from others: whether it starts at the root, whether it starts at `.`, and
/// the names on its way, without those that lead nowhere.
#[verifier::ext_equal]
pub struct PathParts {
    pub absolute: bool,
    pub from_here: bool,
    pub names: Seq<Seq<u8>>,
}

/// What stands behind the last slash.
pub open spec fn last_segment(path: Seq<u8>) -> Seq<u8>
    decreases path.len(),
{
    if path.len() == 0 || path.last() == 47 {
        Seq::empty()
    } else {
        last_segment(path.drop_last()).push(path.last())
    }
}

/// The name that a segment stands for, if it leads anywhere.
pub open spec fn names_in(segment: Seq<u8>) -> Seq<Seq<u8>> {
    if segment.len() == 0 || segment == seq![46u8] {
        Seq::empty()
    } else {
        seq![segment]
    }
}

/// The names before the last slash.
pub open spec fn names_before(path: Seq<u8>) -> Seq<Seq<u8>>
    decreases path.len(),
{
    if path.len() == 0 {
        Seq::empty()
    } else if path.last() == 47 {
        names_before(path.drop_last()) + names_in(last_segment(path.drop_last()))
    } else {
        names_before(path.drop_last())
    }
}

/// The parts of a path.
pub open spec fn path_parts(path: Seq<u8>) -> PathParts {
    PathParts {
        absolute: is_absolute(path),
        from_here: path.len() > 0 && path[0] == 46 && (path.len() == 1 || path[1] == 47),
        names: names_before(path) + names_in(last_segment(path)),
    }
}

/// The path of a file. Two paths are equal if their parts are, however they are written.
#[derive(Debug, Eq)]
pub struct FilePath {
    pub bytes: Vec<u8>,
}

/// The path of a device, as text. Two paths are equal if their parts are, however they are written.
#[derive(Debug, Eq)]
pub struct DevicePath {
    pub text: String,
}

impl FilePath {
    pub open spec fn parts(self) -> PathParts {
        path_parts(self.bytes@)
    }

    /// A path of those bytes.
    pub fn new(bytes: &[u8]) -> (path: Self)
        ensures
            path.bytes@ == bytes@,
    {
        let mut owned: Vec<u8> = Vec::new();
        owned.extend_from_slice(bytes);
        assert(owned@ =~= bytes@);
        FilePath { bytes: owned }
    }

    /// A path below another one.
    pub fn join(base: &[u8], below: &str) -> (path: Self)
        ensures
            path.bytes@ == joined(base@, below.spec_bytes()),
    {
        let mut bytes: Vec<u8> = Vec::new();
        bytes.extend_from_slice(base);
        assert(bytes@ =~= base@);
        if base.len() > 0 && base[base.len() - 1] != 47 {
            bytes.push(47);
        }
        bytes.extend_from_slice(below.as_bytes());
        assert(bytes@ =~= joined(base@, below.spec_bytes()));
        FilePath { bytes }
    }
}

impl DevicePath {
    pub open spec fn parts(self) -> PathParts {
        path_parts(vstd::utf8::encode_utf8(self.text@))
    }
}

impl Clone for FilePath {
    fn clone(&self) -> (copy: Self)
        ensures
            copy.bytes@ == self.bytes@,
    {
        FilePath::new(self.bytes.as_slice())
    }
}

impl Clone for DevicePath {
    fn clone(&self) -> (copy: Self)
        ensures
            copy == *self,
    {
        DevicePath { text: self.text.clone() }
    }
}

impl PartialEq for FilePath {
    fn eq(&self, other: &Self) -> (equal: bool) {
        is_same_path(self.bytes.as_slice(), other.bytes.as_slice())
    }
}

impl vstd::std_specs::cmp::PartialEqSpecImpl for FilePath {
    open spec fn obeys_eq_spec() -> bool {
        true
    }

    open spec fn eq_spec(&self, other: &Self) -> bool {
        self.parts() == other.parts()
    }
}

impl PartialEq for DevicePath {
    fn eq(&self, other: &Self) -> (equal: bool) {
        is_same_path(self.text.as_str().as_bytes(), other.text.as_str().as_bytes())
    }
}

impl vstd::std_specs::cmp::PartialEqSpecImpl for DevicePath {
    open spec fn obeys_eq_spec() -> bool {
        true
    }

    open spec fn eq_spec(&self, other: &Self) -> bool {
        self.parts() == other.parts()
    }
}

struct Parts {
    absolute: bool,
    from_here: bool,
    names: Vec<Vec<u8>>,
}

spec fn contents(names: Seq<Vec<u8>>) -> Seq<Seq<u8>> {
    names.map_values(|name: Vec<u8>| name@)
}

impl View for Parts {
    type V = PathParts;

    closed spec fn view(&self) -> PathParts {
        PathParts {
            absolute: self.absolute,
            from_here: self.from_here,
            names: contents(self.names@),
        }
    }
}

fn keep_name(names: &mut Vec<Vec<u8>>, segment: Vec<u8>)
    ensures
        contents(final(names)@) == contents(old(names)@) + names_in(segment@),
{
    let lone_dot: bool = segment.len() == 1 && segment[0] == 46;
    assert(lone_dot == (segment@ =~= seq![46u8]));
    if segment.len() > 0 && !lone_dot {
        names.push(segment);
    }
    assert(contents(names@) =~= contents(old(names)@) + names_in(segment@));
}

fn take_apart(path: &[u8]) -> (parts: Parts)
    ensures
        parts@ == path_parts(path@),
{
    let mut names: Vec<Vec<u8>> = Vec::new();
    let mut segment: Vec<u8> = Vec::new();
    let mut index: usize = 0;
    assert(contents(names@) =~= Seq::empty());
    while index < path.len()
        invariant
            index <= path.len(),
            segment@ == last_segment(path@.take(index as int)),
            contents(names@) == names_before(path@.take(index as int)),
        decreases path.len() - index,
    {
        let byte = path[index];
        proof {
            assert(path@.take(index + 1).drop_last() =~= path@.take(index as int));
            assert(path@.take(index + 1).last() == byte);
        }
        if byte == 47 {
            let mut ended: Vec<u8> = Vec::new();
            std::mem::swap(&mut ended, &mut segment);
            keep_name(&mut names, ended);
        } else {
            segment.push(byte);
        }
        index += 1;
    }
    assert(path@.take(index as int) =~= path@);
    keep_name(&mut names, segment);
    Parts {
        absolute: path.len() > 0 && path[0] == 47,
        from_here: path.len() > 0 && path[0] == 46 && (path.len() == 1 || path[1] == 47),
        names,
    }
}

fn same_names(left: &Vec<Vec<u8>>, right: &Vec<Vec<u8>>) -> (equal: bool)
    ensures
        equal == (contents(left@) == contents(right@)),
{
    if left.len() != right.len() {
        assert(contents(left@).len() != contents(right@).len());
        return false;
    }
    let mut index: usize = 0;
    while index < left.len()
        invariant
            index <= left.len(),
            left.len() == right.len(),
            forall|i: int| 0 <= i < index ==> #[trigger] left@[i]@ == right@[i]@,
        decreases left.len() - index,
    {
        if !same(left[index].as_slice(), right[index].as_slice()) {
            assert(contents(left@)[index as int] != contents(right@)[index as int]);
            return false;
        }
        index += 1;
    }
    assert(contents(left@) =~= contents(right@));
    true
}

fn is_same_path(left: &[u8], right: &[u8]) -> (equal: bool)
    ensures
        equal == (path_parts(left@) == path_parts(right@)),
{
    let left = take_apart(left);
    let right = take_apart(right);
    left.absolute == right.absolute && left.from_here == right.from_here && same_names(
        &left.names,
        &right.names,
    )
}

proof fn lemma_without_slash(path: Seq<u8>, segment: Seq<u8>)
    requires
        forall|i: int| 0 <= i < segment.len() ==> #[trigger] segment[i] != 47,
    ensures
        names_before(path + segment) == names_before(path),
        last_segment(path + segment) == last_segment(path) + segment,
    decreases segment.len(),
{
    if segment.len() == 0 {
        assert(path + segment =~= path);
        assert(last_segment(path) + segment =~= last_segment(path));
    } else {
        let front = segment.drop_last();
        assert((path + segment).drop_last() =~= path + front);
        assert((path + segment).last() == segment.last());
        assert(segment[segment.len() - 1] != 47);
        lemma_without_slash(path, front);
        assert(last_segment(path) + segment =~= (last_segment(path) + front).push(segment.last()));
    }
}

proof fn lemma_slash(path: Seq<u8>)
    ensures
        names_before(path + seq![47u8]) == names_before(path) + names_in(last_segment(path)),
        last_segment(path + seq![47u8]) == Seq::<u8>::empty(),
{
    assert((path + seq![47u8]).drop_last() =~= path);
}

proof fn lemma_same_tail(left: Seq<u8>, right: Seq<u8>, tail: Seq<u8>)
    requires
        names_before(left) == names_before(right),
        last_segment(left) == last_segment(right),
    ensures
        names_before(left + tail) == names_before(right + tail),
        last_segment(left + tail) == last_segment(right + tail),
    decreases tail.len(),
{
    if tail.len() == 0 {
        assert(left + tail =~= left);
        assert(right + tail =~= right);
    } else {
        lemma_same_tail(left, right, tail.drop_last());
        assert((left + tail).drop_last() =~= left + tail.drop_last());
        assert((right + tail).drop_last() =~= right + tail.drop_last());
        assert((left + tail).last() == tail.last());
        assert((right + tail).last() == tail.last());
    }
}

/// A path goes one name further behind a slash, and a path of one name has that name.
pub proof fn law_names_follow_slashes(path: Seq<u8>, name: Seq<u8>)
    requires
        name.len() > 0,
        name != seq![46u8],
        forall|i: int| 0 <= i < name.len() ==> #[trigger] name[i] != 47,
    ensures
        path_parts(path + seq![47u8] + name).names == path_parts(path).names.push(name),
        path_parts(name).names == seq![name],
        !path_parts(name).absolute,
        path_parts(Seq::empty()).names == Seq::<Seq<u8>>::empty(),
{
    let slashed = path + seq![47u8];
    lemma_slash(path);
    lemma_without_slash(slashed, name);
    assert(last_segment(slashed) + name =~= name);
    assert(path_parts(slashed + name).names =~= path_parts(path).names.push(name));
    lemma_without_slash(Seq::empty(), name);
    assert(Seq::<u8>::empty() + name =~= name);
    assert(last_segment(Seq::empty()) =~= Seq::empty());
    assert(path_parts(name).names =~= seq![name]);
    assert(path_parts(Seq::empty()).names =~= Seq::empty());
}

/// A path starts at the root exactly if its first byte is a slash, and from here exactly if its
/// first segment is a dot.
pub proof fn law_beginning_of_a_path_matters(path: Seq<u8>)
    ensures
        path_parts(path).absolute <==> path.len() > 0 && path[0] == 47,
        path_parts(path).from_here <==> path == seq![46u8] || path.len() > 1 && path[0] == 46
            && path[1] == 47,
{
    if path.len() == 1 && path[0] == 46 {
        assert(path =~= seq![46u8]);
    }
}

/// Slashes that are repeated, dots between slashes and a slash at the end make no difference.
pub proof fn law_empty_segments_lead_nowhere(front: Seq<u8>, tail: Seq<u8>)
    ensures
        path_parts(front + seq![47u8, 47] + tail) == path_parts(front + seq![47u8] + tail),
        path_parts(front + seq![47u8, 46, 47] + tail) == path_parts(front + seq![47u8] + tail),
        front.len() > 0 ==> path_parts(front + seq![47u8]) == path_parts(front),
{
    let one = front + seq![47u8];
    let two = front + seq![47u8, 47];
    let dotted = front + seq![47u8, 46, 47];
    lemma_slash(front);
    lemma_slash(one);
    assert(one + seq![47u8] =~= two);
    assert(names_before(two) =~= names_before(one));
    lemma_same_tail(two, one, tail);
    assert(path_parts(two + tail) =~= path_parts(one + tail));
    let dot = one + seq![46u8];
    lemma_without_slash(one, seq![46u8]);
    lemma_slash(dot);
    assert(dot + seq![47u8] =~= dotted);
    assert(last_segment(dot) =~= seq![46u8]);
    assert(names_before(dotted) =~= names_before(one));
    lemma_same_tail(dotted, one, tail);
    assert(path_parts(dotted + tail) =~= path_parts(one + tail));
    if front.len() > 0 {
        assert(names_before(one) + names_in(last_segment(one)) =~= path_parts(front).names);
        assert(path_parts(one) =~= path_parts(front));
    }
}

/// Two paths are equal exactly if they begin alike and have the same names.
pub proof fn law_paths_are_equal_by_their_parts(
    left: FilePath,
    right: FilePath,
    device: DevicePath,
    other: DevicePath,
    same_file: bool,
    same_device: bool,
)
    requires
        call_ensures(FilePath::eq, (&left, &right), same_file),
        call_ensures(DevicePath::eq, (&device, &other), same_device),
    ensures
        same_file <==> path_parts(left.bytes@) == path_parts(right.bytes@),
        same_device <==> path_parts(vstd::utf8::encode_utf8(device.text@)) == path_parts(
            vstd::utf8::encode_utf8(other.text@),
        ),
        device.text@ == other.text@ ==> same_device,
{
}

} // verus!
