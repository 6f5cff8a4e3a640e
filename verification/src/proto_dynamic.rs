//! Naming rules of the runtime proto registry: which `.proto` files are
//! compiled, what their descriptors are called, how messages are indexed
//! and which message a sensor path selects.
//!
//! Compiling the files and decoding with the descriptors is done by the
//! application with `protox` and `prost-reflect`.

use vstd::prelude::*;
use vstd::string::StringExecFns;

use crate::text::{
    chars_of, contains_text, ends_with, find_text, matches_at, push_text, replace_all,
    replace_text, starts_with, str_eq, string_of_chars, string_push,
};

verus! {

/// Combined descriptor file name for all v3 protos.
pub const V3_DESC_FILENAME: &'static str = "v3_modules.desc";

/// A file name whose extension (the part after the last dot of a name that
/// does not start with that dot) is `proto`.
pub open spec fn has_proto_extension(name: Seq<char>) -> bool {
    ends_with(name, ".proto"@) && name.len() > 6
}

/// A v3 module proto: `*_v3.proto`, other than the dial-out service's own.
pub open spec fn spec_is_v3_module_file(name: Seq<char>) -> bool {
    has_proto_extension(name) && ends_with(name, "_v3.proto"@) && name != "grpc_dialout_v3.proto"@
}

/// A proto file for which a descriptor is generated: not `any.proto*` and
/// not a `_bak_` copy.
pub open spec fn spec_is_descriptor_source(name: Seq<char>) -> bool {
    has_proto_extension(name) && !starts_with(name, "any.proto"@) && !contains_text(name, "_bak_"@)
}

fn has_proto_ext(v: &Vec<char>) -> (b: bool)
    ensures
        b == has_proto_extension(v@),
{
    proof {
        reveal_strlit(".proto");
    }
    let ext = chars_of(".proto");
    v.len() > 6 && matches_at(v, &ext, v.len() - 6)
}

/// Whether a file name is a v3 module proto.
pub fn is_v3_module_file(name: &str) -> (b: bool)
    ensures
        b == spec_is_v3_module_file(name@),
{
    proof {
        reveal_strlit("_v3.proto");
    }
    let v = chars_of(name);
    let suffix = chars_of("_v3.proto");
    has_proto_ext(&v) && v.len() >= 9 && matches_at(&v, &suffix, v.len() - 9) && !str_eq(
        name,
        "grpc_dialout_v3.proto",
    )
}

/// Whether a file name is a proto for which a descriptor is generated.
pub fn is_descriptor_source(name: &str) -> (b: bool)
    ensures
        b == spec_is_descriptor_source(name@),
{
    let v = chars_of(name);
    let any = chars_of("any.proto");
    let bak = chars_of("_bak_");
    has_proto_ext(&v) && !matches_at(&v, &any, 0) && !find_text(&v, &bak)
}

/// The descriptor file of a proto file: `.proto` replaced by `.desc`.
pub fn descriptor_file_name(name: &str) -> (s: String)
    ensures
        s@ == replace_all(name@, ".proto"@, ".desc"@),
{
    proof {
        reveal_strlit(".proto");
    }
    replace_text(name, ".proto", ".desc")
}

/// The full name of a message: `package.name`, or the name alone without a
/// package.
pub open spec fn spec_full_name(package: Seq<char>, name: Seq<char>) -> Seq<char> {
    if package.len() == 0 {
        name
    } else {
        package + "."@ + name
    }
}

/// The full name of a message in a package.
pub fn message_full_name(package: &str, name: &str) -> (s: String)
    ensures
        s@ == spec_full_name(package@, name@),
{
    if package.unicode_len() == 0 {
        String::from_str(name)
    } else {
        let mut s = String::from_str(package);
        push_text(&mut s, ".");
        push_text(&mut s, name);
        s
    }
}

/// The part of `s` after its last `.` (all of `s` without a dot).
pub open spec fn after_last_dot(s: Seq<char>) -> Seq<char>
    decreases s.len(),
{
    if s.len() == 0 {
        s
    } else if s.last() == '.' {
        Seq::empty()
    } else {
        after_last_dot(s.drop_last()).push(s.last())
    }
}

/// The short name of a message: its name after the last `.`.
pub fn short_name(name: &str) -> (s: String)
    ensures
        s@ == after_last_dot(name@),
{
    let v = chars_of(name);
    let n = v.len();
    let mut start: usize = n;
    assert(v@.take(n as int) =~= v@);
    assert(after_last_dot(v@) + v@.subrange(n as int, n as int) =~= after_last_dot(v@));
    while start > 0 && v[start - 1] != '.'
        invariant
            n == v@.len(),
            0 <= start <= n,
            after_last_dot(v@) == after_last_dot(v@.take(start as int)) + v@.subrange(
                start as int,
                n as int,
            ),
        decreases start,
    {
        proof {
            let t = v@.take(start as int);
            assert(t.drop_last() =~= v@.take(start - 1));
            assert(t.last() == v@[start - 1]);
            assert(after_last_dot(t) == after_last_dot(t.drop_last()).push(t.last()));
            assert(after_last_dot(t.drop_last()).push(t.last()) + v@.subrange(start as int, n as int)
                =~= after_last_dot(v@.take(start - 1)) + v@.subrange(start - 1, n as int));
        }
        start = start - 1;
    }
    proof {
        let t = v@.take(start as int);
        if start > 0 {
            assert(t.last() == '.');
        }
        assert(after_last_dot(t) =~= Seq::<char>::empty());
        assert(Seq::<char>::empty() + v@.subrange(start as int, n as int) =~= v@.subrange(
            start as int,
            n as int,
        ));
    }
    assert(v@.take(n as int) =~= v@);
    string_of_chars(&v, start, n)
}

/// The end of the path segment that starts at `i`: the next `/` or the end.
pub open spec fn segment_end(s: Seq<char>, i: int) -> int
    decreases s.len() - i,
{
    if i >= s.len() || i < 0 || s[i] == '/' {
        i
    } else {
        segment_end(s, i + 1)
    }
}

/// The first segment of a sensor path.
pub open spec fn first_segment(s: Seq<char>) -> Seq<char> {
    s.take(segment_end(s, 0))
}

/// The second segment of a sensor path, when it has a `/`.
pub open spec fn second_segment(s: Seq<char>) -> Option<Seq<char>> {
    let e = segment_end(s, 0);
    if e < s.len() {
        Some(s.subrange(e + 1, segment_end(s, e + 1)))
    } else {
        None
    }
}

/// `-` replaced by `_`.
pub open spec fn dashes_to_underscores(s: Seq<char>) -> Seq<char> {
    s.map_values(
        |c: char|
            if c == '-' {
                '_'
            } else {
                c
            },
    )
}

/// The message name that a sensor path names first: its first segment with
/// `-` replaced by `_`.
pub open spec fn module_key(s: Seq<char>) -> Seq<char> {
    dashes_to_underscores(first_segment(s))
}

/// The first index holding `key`, if any.
pub open spec fn first_index_of(names: Seq<Seq<char>>, key: Seq<char>) -> Option<int> {
    if exists|i: int| 0 <= i < names.len() && names[i] == key {
        Some(
            choose|i: int|
                0 <= i < names.len() && names[i] == key && forall|j: int|
                    0 <= j < i ==> names[j] != key,
        )
    } else {
        None
    }
}

/// The message a sensor path selects among the indexed names: the one named
/// by its module key; failing that, for `InSuitOam`, the one named by its
/// second segment.
pub open spec fn spec_find_module(names: Seq<Seq<char>>, path: Seq<char>) -> Option<int> {
    match first_index_of(names, module_key(path)) {
        Some(i) => Some(i),
        None => if module_key(path) == "InSuitOam"@ {
            match second_segment(path) {
                Some(seg) => first_index_of(names, seg),
                None => None,
            }
        } else {
            None
        },
    }
}

/// The texts of a list of strings.
pub open spec fn names_of(v: Seq<String>) -> Seq<Seq<char>> {
    v.map_values(|s: String| s@)
}

fn segment_end_exec(v: &Vec<char>, start: usize) -> (e: usize)
    requires
        start <= v@.len(),
    ensures
        e as int == segment_end(v@, start as int),
        start <= e <= v@.len(),
{
    let n = v.len();
    let mut i = start;
    while i < n && v[i] != '/'
        invariant
            n == v@.len(),
            start <= i <= n,
            segment_end(v@, start as int) == segment_end(v@, i as int),
        decreases n - i,
    {
        i = i + 1;
    }
    i
}

fn index_of(names: &Vec<String>, key: &String) -> (r: Option<usize>)
    ensures
        match r {
            Some(i) => first_index_of(names_of(names@), key@) == Some(i as int),
            None => first_index_of(names_of(names@), key@) is None,
        },
{
    let ghost ns = names_of(names@);
    let n = names.len();
    let mut i: usize = 0;
    while i < n
        invariant
            n == names@.len(),
            ns == names_of(names@),
            0 <= i <= n,
            forall|j: int| 0 <= j < i ==> ns[j] != key@,
        decreases n - i,
    {
        if names[i] == *key {
            proof {
                let c = choose|c: int|
                    0 <= c < ns.len() && ns[c] == key@ && forall|j: int| 0 <= j < c ==> ns[j] != key@;
                assert(0 <= i < ns.len() && ns[i as int] == key@);
                assert(ns[c] == key@);
                if c < i {
                    assert(ns[c] != key@);
                } else if c > i {
                    assert(ns[i as int] != key@);
                }
            }
            return Some(i);
        }
        i = i + 1;
    }
    None
}

/// Find the indexed message that a sensor path selects.
pub fn find_module_index(names: &Vec<String>, sensor_path: &str) -> (r: Option<usize>)
    ensures
        match r {
            Some(i) => spec_find_module(names_of(names@), sensor_path@) == Some(i as int),
            None => spec_find_module(names_of(names@), sensor_path@) is None,
        },
{
    let v = chars_of(sensor_path);
    let e = segment_end_exec(&v, 0);
    let mut key = String::new();
    let mut i: usize = 0;
    while i < e
        invariant
            e as int == segment_end(v@, 0),
            e <= v@.len(),
            0 <= i <= e,
            key@ == dashes_to_underscores(v@.take(i as int)),
        decreases e - i,
    {
        let c = v[i];
        string_push(&mut key, if c == '-' { '_' } else { c });
        proof {
            assert(key@ =~= dashes_to_underscores(v@.take(i + 1)));
        }
        i = i + 1;
    }
    assert(v@.take(e as int) == first_segment(v@));
    if let Some(idx) = index_of(names, &key) {
        return Some(idx);
    }
    if str_eq(key.as_str(), "InSuitOam") {
        if e < v.len() {
            let e2 = segment_end_exec(&v, e + 1);
            let second = string_of_chars(&v, e + 1, e2);
            return index_of(names, &second);
        }
    }
    None
}


/// Every v3 module file gets a descriptor too, unless it is a `_bak_` copy
/// or an `any.proto*` file: the files compiled into the registry are among
/// the files for which descriptors are generated.
pub proof fn law_v3_modules_are_descriptor_sources(name: Seq<char>)
    requires
        spec_is_v3_module_file(name),
        !starts_with(name, "any.proto"@),
        !contains_text(name, "_bak_"@),
    ensures
        spec_is_descriptor_source(name),
{
}

/// No `_bak_` copy and no `any.proto*` file gets a descriptor, and neither
/// does a file without the `.proto` extension.
pub proof fn law_descriptor_source_exclusions(name: Seq<char>)
    ensures
        contains_text(name, "_bak_"@) ==> !spec_is_descriptor_source(name),
        starts_with(name, "any.proto"@) ==> !spec_is_descriptor_source(name),
        !ends_with(name, ".proto"@) ==> !spec_is_descriptor_source(name),
{
}


/// A file gets a descriptor exactly when its name ends in `.proto` (with a
/// name before it), does not start with `any.proto` and holds no `_bak_`.
pub proof fn law_descriptor_sources_exactly(name: Seq<char>)
    ensures
        spec_is_descriptor_source(name) <==> (ends_with(name, ".proto"@) && name.len() > 6
            && !starts_with(name, "any.proto"@) && !contains_text(name, "_bak_"@)),
{
}

} // verus!
