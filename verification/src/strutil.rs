//! Small executable helpers over strings, options and tag lists, each with
//! an exact contract over views. The resolver and the emitter are written
//! entirely in terms of these.

use vstd::prelude::*;
use crate::model::PropertyOrConstraint;
use crate::model::InternalDataInOrOut;
use crate::model::InternalIterator;
use crate::model::IfDataOut;

verus! {

/// The option's content, or the given default.
pub open spec fn opt_or(o: Option<Seq<char>>, d: Seq<char>) -> Seq<char> {
    match o {
        Some(s) => s,
        None => d,
    }
}

/// The preferred rename, else the declared name, else empty.
pub open spec fn spec_name_or(rename: Option<Seq<char>>, name: Option<Seq<char>>) -> Seq<char> {
    match rename {
        Some(s) => s,
        None => opt_or(name, Seq::empty()),
    }
}

/// Whether the sequence begins with the given character.
pub open spec fn spec_starts_with(s: Seq<char>, c: char) -> bool {
    s.len() > 0 && s[0] == c
}

/// True exactly when the string's characters equal the literal's.
pub fn eq_str(a: &String, lit: &str) -> (r: bool)
    ensures
        r == (a@ == lit@),
{
    let l = lit.to_owned();
    a.eq(&l)
}

/// True exactly when the option holds exactly the given string.
pub fn opt_eq_some(a: &Option<String>, b: &String) -> (r: bool)
    ensures
        r == (a.deep_view() == Some(b@)),
{
    match a {
        Some(s) => s.eq(b),
        None => false,
    }
}

/// True exactly when the two options agree, content compared by characters.
pub fn opt_eq(a: &Option<String>, b: &Option<String>) -> (r: bool)
    ensures
        r == (a.deep_view() == b.deep_view()),
{
    match (a, b) {
        (Some(x), Some(y)) => x.eq(y),
        (None, None) => true,
        _ => false,
    }
}

/// The two strings joined by a single separating slash.
pub fn join_path(a: &String, b: &String) -> (r: String)
    ensures
        r@ == a@ + "/"@ + b@,
{
    a.clone().concat("/").concat(b.as_str())
}

/// The two strings concatenated.
pub fn concat2(a: &String, b: &String) -> (r: String)
    ensures
        r@ == a@ + b@,
{
    a.clone().concat(b.as_str())
}

/// The option's content cloned, or the literal default.
pub fn unwrap_or_str(o: &Option<String>, d: &str) -> (r: String)
    ensures
        r@ == opt_or(o.deep_view(), d@),
{
    match o {
        Some(s) => s.clone(),
        None => d.to_owned(),
    }
}

/// The preferred rename cloned, else the declared name, else empty.
pub fn name_or(rename: &Option<String>, name: &Option<String>) -> (r: String)
    ensures
        r@ == spec_name_or(rename.deep_view(), name.deep_view()),
{
    match rename {
        Some(s) => s.clone(),
        None => match name {
            Some(s) => s.clone(),
            None => String::new(),
        },
    }
}

/// Whether the string begins with the given character.
pub fn starts_with_char(s: &String, c: char) -> (r: bool)
    ensures
        r == spec_starts_with(s@, c),
{
    if s.as_str().unicode_len() > 0 {
        s.as_str().get_char(0) == c
    } else {
        false
    }
}

/// Whether some element of the list equals the string.
pub fn contains_string(v: &Vec<String>, s: &String) -> (r: bool)
    ensures
        r == v.deep_view().contains(s@),
{
    let mut i: usize = 0;
    while i < v.len()
        invariant
            i <= v.len(),
            forall|k: int| 0 <= k < i ==> v.deep_view()[k] != s@,
        decreases v.len() - i,
    {
        if v[i].eq(s) {
            assert(v.deep_view()[i as int] == s@);
            return true;
        }
        i += 1;
    }
    false
}

/// A copy of the option, content cloned.
pub fn clone_opt_string(o: &Option<String>) -> (r: Option<String>)
    ensures
        r.deep_view() == o.deep_view(),
{
    match o {
        Some(s) => Some(s.clone()),
        None => None,
    }
}

/// A copy of a tag.
pub fn clone_tag(t: &PropertyOrConstraint) -> (r: PropertyOrConstraint)
    ensures
        r.deep_view() == t.deep_view(),
{
    PropertyOrConstraint { name: t.name.clone(), value: t.value.clone() }
}

/// A copy of a tag list.
pub fn clone_tags(v: &Vec<PropertyOrConstraint>) -> (r: Vec<PropertyOrConstraint>)
    ensures
        r.deep_view() == v.deep_view(),
{
    let mut r: Vec<PropertyOrConstraint> = Vec::new();
    let mut i: usize = 0;
    while i < v.len()
        invariant
            i <= v.len(),
            r.deep_view() =~= v.deep_view().take(i as int),
        decreases v.len() - i,
    {
        let ghost prev = r.deep_view();
        r.push(clone_tag(&v[i]));
        proof {
            assert(r.deep_view() =~= prev.push(v.deep_view()[i as int]));
        }
        i += 1;
    }
    assert(r.deep_view() =~= v.deep_view());
    r
}

/// A copy of an optional tag list.
pub fn clone_opt_tags(v: &Option<Vec<PropertyOrConstraint>>) -> (r: Option<
    Vec<PropertyOrConstraint>,
>)
    ensures
        r.deep_view() == v.deep_view(),
{
    match v {
        Some(t) => Some(clone_tags(t)),
        None => None,
    }
}

/// A copy of a port declaration.
pub fn clone_port(p: &InternalDataInOrOut) -> (r: InternalDataInOrOut)
    ensures
        r.deep_view() == p.deep_view(),
{
    InternalDataInOrOut {
        id: p.id.clone(),
        name: clone_opt_string(&p.name),
        rename: clone_opt_string(&p.rename),
        source: clone_opt_string(&p.source),
        start_source: clone_opt_string(&p.start_source),
        value: clone_opt_string(&p.value),
        typ: clone_opt_string(&p.typ),
        constraints: clone_opt_tags(&p.constraints),
        properties: clone_opt_tags(&p.properties),
    }
}

/// A copy of an optional port list.
pub fn clone_opt_ports(v: &Option<Vec<InternalDataInOrOut>>) -> (r: Option<
    Vec<InternalDataInOrOut>,
>)
    ensures
        r.deep_view() == v.deep_view(),
{
    match v {
        Some(ports) => {
            let mut out: Vec<InternalDataInOrOut> = Vec::new();
            let mut i: usize = 0;
            while i < ports.len()
                invariant
                    i <= ports.len(),
                    out.deep_view() =~= ports.deep_view().take(i as int),
                decreases ports.len() - i,
            {
                let ghost prev = out.deep_view();
                out.push(clone_port(&ports[i]));
                proof {
                    assert(out.deep_view() =~= prev.push(ports.deep_view()[i as int]));
                }
                i += 1;
            }
            assert(out.deep_view() =~= ports.deep_view());
            Some(out)
        },
        None => None,
    }
}

/// A copy of a merge-output declaration.
pub fn clone_merge_out(m: &IfDataOut) -> (r: IfDataOut)
    ensures
        r.deep_view() == m.deep_view(),
{
    let mut sources: Vec<String> = Vec::new();
    let mut i: usize = 0;
    while i < m.sources.len()
        invariant
            i <= m.sources.len(),
            sources.deep_view() =~= m.sources.deep_view().take(i as int),
        decreases m.sources.len() - i,
    {
        let ghost prev = sources.deep_view();
        sources.push(m.sources[i].clone());
        proof {
            assert(sources.deep_view() =~= prev.push(m.sources.deep_view()[i as int]));
        }
        i += 1;
    }
    assert(sources.deep_view() =~= m.sources.deep_view());
    IfDataOut { id: m.id.clone(), name: m.name.clone(), typ: m.typ.clone(), sources }
}

/// A copy of an optional merge-output list.
pub fn clone_opt_merge_outs(v: &Option<Vec<IfDataOut>>) -> (r: Option<Vec<IfDataOut>>)
    ensures
        r.deep_view() == v.deep_view(),
{
    match v {
        Some(list) => {
            let mut out: Vec<IfDataOut> = Vec::new();
            let mut i: usize = 0;
            while i < list.len()
                invariant
                    i <= list.len(),
                    out.deep_view() =~= list.deep_view().take(i as int),
                decreases list.len() - i,
            {
                let ghost prev = out.deep_view();
                out.push(clone_merge_out(&list[i]));
                proof {
                    assert(out.deep_view() =~= prev.push(list.deep_view()[i as int]));
                }
                i += 1;
            }
            assert(out.deep_view() =~= list.deep_view());
            Some(out)
        },
        None => None,
    }
}

/// A copy of a string list.
pub fn clone_strings(v: &Vec<String>) -> (r: Vec<String>)
    ensures
        r.deep_view() == v.deep_view(),
{
    let mut out: Vec<String> = Vec::new();
    let mut i: usize = 0;
    while i < v.len()
        invariant
            i <= v.len(),
            out.deep_view() =~= v.deep_view().take(i as int),
        decreases v.len() - i,
    {
        let ghost prev = out.deep_view();
        out.push(v[i].clone());
        proof {
            assert(out.deep_view() =~= prev.push(v.deep_view()[i as int]));
        }
        i += 1;
    }
    assert(out.deep_view() =~= v.deep_view());
    out
}

/// A copy of an iteration-variable list.
pub fn clone_iterators(v: &Vec<InternalIterator>) -> (r: Vec<InternalIterator>)
    ensures
        r.deep_view() == v.deep_view(),
{
    let mut out: Vec<InternalIterator> = Vec::new();
    let mut i: usize = 0;
    while i < v.len()
        invariant
            i <= v.len(),
            out.deep_view() =~= v.deep_view().take(i as int),
        decreases v.len() - i,
    {
        let ghost prev = out.deep_view();
        out.push(
            InternalIterator {
                name: clone_opt_string(&v[i].name),
                element_type: clone_opt_string(&v[i].element_type),
            },
        );
        proof {
            assert(out.deep_view() =~= prev.push(v.deep_view()[i as int]));
        }
        i += 1;
    }
    assert(out.deep_view() =~= v.deep_view());
    out
}

} // verus!
