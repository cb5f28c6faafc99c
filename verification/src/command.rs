//! The dispatcher's pure half: building the command line from the configured
//! template and the matched paths. The paths are joined with single spaces
//! (no leading or trailing space) and the joined string replaces every
//! occurrence of the placeholder token `{}` in the template; a template
//! without the token is returned unchanged. Running the resulting line is the
//! caller's business.

use vstd::prelude::*;

use crate::event::paths_view;

verus! {

/// The paths joined with a single space between neighbours: empty for no
/// paths, and never with a leading or trailing space.
pub open spec fn join_with_spaces(paths: Seq<Seq<char>>) -> Seq<char>
    decreases paths.len(),
{
    if paths.len() == 0 {
        Seq::empty()
    } else if paths.len() == 1 {
        paths[0]
    } else {
        join_with_spaces(paths.drop_last()) + seq![' '] + paths.last()
    }
}

/// The template with every occurrence of the placeholder token `{}` replaced
/// by `joined`, scanning left to right.
pub open spec fn substitute(template: Seq<char>, joined: Seq<char>) -> Seq<char>
    decreases template.len(),
{
    if template.len() >= 2 && template[0] == '{' && template[1] == '}' {
        joined + substitute(template.skip(2), joined)
    } else if template.len() > 0 {
        seq![template[0]] + substitute(template.skip(1), joined)
    } else {
        Seq::empty()
    }
}

/// Law: a template without the placeholder token is rendered unchanged,
/// whatever the paths.
pub proof fn lemma_no_placeholder_identity(template: Seq<char>, joined: Seq<char>)
    requires
        forall|i: int|
            0 <= i < template.len() - 1 ==> !(#[trigger] template[i] == '{' && template[i + 1]
                == '}'),
    ensures
        substitute(template, joined) == template,
    decreases template.len(),
{
    if template.len() >= 2 && template[0] == '{' && template[1] == '}' {
        assert(template[0int] == '{' && template[1int] == '}');
    } else if template.len() > 0 {
        assert forall|i: int|
            0 <= i < template.skip(1).len() - 1 implies !(#[trigger] template.skip(1)[i] == '{'
            && template.skip(1)[i + 1] == '}') by {
            assert(template.skip(1)[i] == template[i + 1]);
            assert(template.skip(1)[i + 1] == template[i + 2]);
        }
        lemma_no_placeholder_identity(template.skip(1), joined);
        assert(substitute(template, joined) =~= template);
    } else {
        assert(substitute(template, joined) =~= template);
    }
}

/// Relies on `FromIterator<char> for String` of std: collecting a sequence of
/// characters yields the string with exactly those characters in order.
#[verifier::external_body]
fn chars_to_string(chars: &Vec<char>) -> (r: String)
    ensures
        r@ == chars@,
{
    chars.iter().collect()
}

/// Append the characters of `s` to `out`.
fn push_str_chars(out: &mut Vec<char>, s: &str)
    ensures
        final(out)@ == old(out)@ + s@,
{
    let n = s.unicode_len();
    let mut j: usize = 0;
    while j < n
        invariant
            n == s@.len(),
            0 <= j <= n,
            out@ == old(out)@ + s@.subrange(0, j as int),
        decreases n - j,
    {
        let c = s.get_char(j);
        out.push(c);
        j += 1;
        proof {
            assert(s@.subrange(0, j as int) =~= s@.subrange(0, j - 1).push(s@[j - 1]));
            assert(out@ =~= old(out)@ + s@.subrange(0, j as int));
        }
    }
    proof {
        assert(s@.subrange(0, n as int) =~= s@);
    }
}

/// Append the characters of `src` to `out`.
fn push_chars(out: &mut Vec<char>, src: &Vec<char>)
    ensures
        final(out)@ == old(out)@ + src@,
{
    let n = src.len();
    let mut j: usize = 0;
    while j < n
        invariant
            n == src@.len(),
            0 <= j <= n,
            out@ == old(out)@ + src@.subrange(0, j as int),
        decreases n - j,
    {
        out.push(src[j]);
        j += 1;
        proof {
            assert(src@.subrange(0, j as int) =~= src@.subrange(0, j - 1).push(src@[j - 1]));
            assert(out@ =~= old(out)@ + src@.subrange(0, j as int));
        }
    }
    proof {
        assert(src@.subrange(0, n as int) =~= src@);
    }
}

/// The paths joined with single spaces, as characters.
fn join_paths(paths: &Vec<String>) -> (r: Vec<char>)
    ensures
        r@ == join_with_spaces(paths_view(paths@)),
{
    let mut out: Vec<char> = Vec::new();
    let mut i: usize = 0;
    while i < paths.len()
        invariant
            0 <= i <= paths@.len(),
            out@ == join_with_spaces(paths_view(paths@).take(i as int)),
        decreases paths@.len() - i,
    {
        if i > 0 {
            out.push(' ');
        }
        push_str_chars(&mut out, paths[i].as_str());
        i += 1;
        proof {
            let views = paths_view(paths@);
            assert(views.take(i as int).drop_last() =~= views.take(i - 1));
            if i == 1 {
                assert(out@ =~= join_with_spaces(views.take(1)));
            } else {
                assert(out@ =~= join_with_spaces(views.take(i - 1)) + seq![' '] + views[i - 1]);
                assert(views.take(i as int).last() == views[i - 1]);
            }
        }
    }
    proof {
        assert(paths_view(paths@).take(paths@.len() as int) =~= paths_view(paths@));
    }
    out
}

/// Render the command line to dispatch: join `paths` with single spaces and
/// substitute the joined string for every `{}` in `template`. A template
/// without the token comes back unchanged, whatever the paths.
pub fn render_command(template: &str, paths: &Vec<String>) -> (r: String)
    ensures
        r@ == substitute(template@, join_with_spaces(paths_view(paths@))),
{
    let joined = join_paths(paths);
    let n = template.unicode_len();
    let mut out: Vec<char> = Vec::new();
    let mut i: usize = 0;
    proof {
        assert(template@.skip(0) =~= template@);
        assert(out@ + substitute(template@, joined@) =~= substitute(template@, joined@));
    }
    while i < n
        invariant
            n == template@.len(),
            0 <= i <= n,
            joined@ == join_with_spaces(paths_view(paths@)),
            substitute(template@, joined@) == out@ + substitute(
                template@.skip(i as int),
                joined@,
            ),
        decreases n - i,
    {
        let c = template.get_char(i);
        if c == '{' && i + 1 < n && template.get_char(i + 1) == '}' {
            proof {
                let rest = template@.skip(i as int);
                assert(rest.len() >= 2);
                assert(rest[0] == '{' && rest[1] == '}');
                assert(rest.skip(2) =~= template@.skip(i + 2));
            }
            push_chars(&mut out, &joined);
            i += 2;
        } else {
            proof {
                let rest = template@.skip(i as int);
                assert(rest[0] == template@[i as int]);
                if rest.len() >= 2 {
                    assert(rest[1] == template@[i + 1]);
                }
                assert(rest.skip(1) =~= template@.skip(i + 1));
                assert(seq![rest[0]] =~= template@.subrange(i as int, i + 1));
            }
            out.push(c);
            i += 1;
            proof {
                assert(out@ =~= out@.drop_last().push(template@[i - 1]));
            }
        }
    }
    proof {
        assert(template@.skip(n as int) =~= Seq::<char>::empty());
        assert(out@ =~= substitute(template@, joined@));
    }
    chars_to_string(&out)
}

} // verus!
