//! Target enumeration: the MIME types currently retrievable, merged from
//! the fresh cache entries and the daemon's advertised list, normalized
//! and deduplicated.
//!
//! Bitmap is folded into a PNG availability signal and never advertised
//! itself; `image/jpeg` gains an `image/jpg` alias; unrecognized types
//! outside the image and text families are dropped; a fresh text entry
//! adds `text/plain;charset=utf-8` and the legacy `STRING` token.  No
//! type is ever emitted twice.

use vstd::prelude::*;
use vstd::string::*;
use crate::cache::{fresh_image_marker_spec, text_fresh_spec, wf_cache, AbsCache, CacheModel};
use crate::daemon::{list_contains, list_contains_spec};
use crate::mime::{is_image_mime, is_text_type, str_eq, text_family};

verus! {

/// The image types the daemon loop recognizes verbatim (bitmap and
/// `image/jpg` are deliberately not among them).
pub open spec fn daemon_image_exact(s: Seq<char>) -> bool {
    ||| s == "image/png"@
    ||| s == "image/jpeg"@
    ||| s == "image/gif"@
    ||| s == "image/webp"@
}

/// A type the daemon's advertised list contributes to the enumeration.
pub open spec fn daemon_emits(s: Seq<char>, types: Seq<Seq<char>>) -> bool {
    ||| (s == "image/png"@ && list_contains_spec(types, "image/bmp"@))
    ||| (daemon_image_exact(s) && list_contains_spec(types, s))
    ||| (s == "image/jpg"@ && list_contains_spec(types, "image/jpeg"@))
    ||| (text_family(s) && list_contains_spec(types, s))
}

/// A type the fresh image marker contributes: the marker itself, plus the
/// `image/jpg` alias when the marker is `image/jpeg`.
pub open spec fn marker_emits(s: Seq<char>, marker: Option<Seq<char>>) -> bool {
    match marker {
        Some(f) => s == f || (f == "image/jpeg"@ && s == "image/jpg"@),
        None => false,
    }
}

/// Membership in one target enumeration.
pub open spec fn target_emitted(
    s: Seq<char>,
    marker: Option<Seq<char>>,
    available: bool,
    types: Seq<Seq<char>>,
    text_fresh: bool,
) -> bool {
    ||| marker_emits(s, marker)
    ||| (available && daemon_emits(s, types))
    ||| (text_fresh && s == "text/plain;charset=utf-8"@)
    ||| (text_fresh && s == "STRING"@ && !(available && list_contains_spec(
        types,
        "text/plain;charset=utf-8"@,
    )))
}

/// No string occurs twice.
pub open spec fn distinct_seqs(xs: Seq<Seq<char>>) -> bool {
    forall|i: int, j: int| 0 <= i < j < xs.len() ==> xs[i] != xs[j]
}

/// Membership in a list extended by one element.
pub proof fn lemma_contains_push(xs: Seq<Seq<char>>, x: Seq<char>, s: Seq<char>)
    ensures
        list_contains_spec(xs.push(x), s) <==> (list_contains_spec(xs, s) || s == x),
{
    if list_contains_spec(xs, s) {
        let i = choose|i: int| 0 <= i < xs.len() && xs[i] == s;
        assert(xs.push(x)[i] == s);
    }
    if s == x {
        assert(xs.push(x)[xs.len() as int] == s);
    }
    if list_contains_spec(xs.push(x), s) {
        let i = choose|i: int| 0 <= i < xs.push(x).len() && xs.push(x)[i] == s;
        if i < xs.len() {
            assert(xs[i] == s);
        }
    }
}

/// Pushing onto the vector pushes the view onto the deep view.
pub proof fn lemma_deep_view_push(v1: Vec<String>, v2: Vec<String>, x: String)
    requires
        v2@ == v1@.push(x),
    ensures
        v2.deep_view() =~= v1.deep_view().push(x@),
{
    assert(v2.deep_view().len() == v1.deep_view().len() + 1);
    assert forall|i: int| 0 <= i < v2.deep_view().len() implies v2.deep_view()[i] == v1.deep_view()
        .push(x@)[i] by {
        if i < v1@.len() {
            assert(v2@[i] == v1@[i]);
        } else {
            assert(v2@[i] == x);
        }
    }
}

/// The distinctness and family facts about the literal type strings the
/// enumeration handles.
pub proof fn lemma_target_literals()
    ensures
        !text_family("image/png"@),
        !text_family("image/jpeg"@),
        !text_family("image/jpg"@),
        !text_family("image/gif"@),
        !text_family("image/webp"@),
        !text_family("image/bmp"@),
        !text_family("STRING"@),
        text_family("text/plain;charset=utf-8"@),
        !is_image_mime("STRING"@),
        !is_image_mime("text/plain;charset=utf-8"@),
        !is_image_mime("image/bmp"@),
        !daemon_image_exact("image/bmp"@),
        !daemon_image_exact("image/jpg"@),
        "image/jpg"@ != "image/jpeg"@,
        "STRING"@ != "text/plain;charset=utf-8"@,
{
    reveal_strlit("image/png");
    reveal_strlit("image/jpeg");
    reveal_strlit("image/jpg");
    reveal_strlit("image/gif");
    reveal_strlit("image/webp");
    reveal_strlit("image/bmp");
    reveal_strlit("STRING");
    reveal_strlit("text/plain;charset=utf-8");
    reveal_strlit("text/");
    assert("image/png"@.len() == 9);
    assert("image/jpeg"@.len() == 10);
    assert("image/jpg"@.len() == 9);
    assert("image/gif"@.len() == 9);
    assert("image/webp"@.len() == 10);
    assert("image/bmp"@.len() == 9);
    assert("STRING"@.len() == 6);
    assert("text/plain;charset=utf-8"@.len() == 24);
    assert("text/"@.len() == 5);
    assert("image/png"@.subrange(0, 5)[0] == 'i' && "text/"@[0] == 't');
    assert("image/jpeg"@.subrange(0, 5)[0] == 'i');
    assert("image/jpg"@.subrange(0, 5)[0] == 'i');
    assert("image/gif"@.subrange(0, 5)[0] == 'i');
    assert("image/webp"@.subrange(0, 5)[0] == 'i');
    assert("image/bmp"@.subrange(0, 5)[0] == 'i');
    assert("STRING"@.subrange(0, 5)[0] == 'S');
    assert("text/plain;charset=utf-8"@.subrange(0, 5) =~= "text/"@);
    assert("image/bmp"@[6] == 'b' && "image/png"@[6] == 'p' && "image/jpg"@[6] == 'j'
        && "image/gif"@[6] == 'g');
    assert("image/jpeg"@[6] == 'j' && "image/webp"@[6] == 'w');
}

/// Enumerate the currently retrievable types, in source order: the fresh
/// image marker (with its jpg alias), the daemon's normalized list, the
/// fresh text type with its legacy token.  Stale cache entries are
/// expired as a side effect.  The result holds exactly the types the
/// sources contribute, and holds no type twice.
pub fn print_targets(
    cache: &mut CacheModel,
    now: u64,
    ttl: u64,
    available: bool,
    types: &Vec<String>,
) -> (r: Vec<String>)
    requires
        wf_cache(old(cache)@),
    ensures
        wf_cache(final(cache)@),
        distinct_seqs(r.deep_view()),
        forall|s: Seq<char>| #[trigger] list_contains_spec(r.deep_view(), s) <==> target_emitted(
            s,
            fresh_image_marker_spec(old(cache)@, now, ttl),
            available,
            types.deep_view(),
            text_fresh_spec(old(cache)@, now, ttl),
        ),
        final(cache)@ =~= (AbsCache {
            text: if text_fresh_spec(old(cache)@, now, ttl) {
                old(cache)@.text
            } else {
                None
            },
            image: if fresh_image_marker_spec(old(cache)@, now, ttl) is Some {
                old(cache)@.image
            } else {
                None
            },
        }),
        fresh_image_marker_spec(old(cache)@, now, ttl) matches Some(f) ==> r.deep_view().len() >= 1
            && r.deep_view()[0] == f,
{
    let ghost marker_spec = fresh_image_marker_spec(old(cache)@, now, ttl);
    let ghost all_types = types.deep_view();
    proof {
        lemma_target_literals();
    }
    let mut out: Vec<String> = Vec::new();

    // fresh image marker, plus the jpg alias for a jpeg marker
    let marker = cache.fresh_image_marker(now, ttl);
    match &marker {
        Some(f) => {
            push_if_absent(&mut out, f.as_str());
            proof {
                assert(list_contains_spec(out.deep_view(), f@));
                assert(out.deep_view() =~= Seq::<Seq<char>>::empty().push(f@));
                assert(out.deep_view()[0] == f@);
            }
            if str_eq(f.as_str(), "image/jpeg") {
                push_if_absent(&mut out, "image/jpg");
            }
            proof {
                assert(out.deep_view()[0] == f@);
            }
        },
        None => {},
    }
    proof {
        assert(forall|s: Seq<char>| #[trigger] list_contains_spec(out.deep_view(), s)
            <==> marker_emits(s, marker_spec));
        assert(is_image_mime_marker(marker_spec));
    }

    // the daemon's advertised types, normalized and deduplicated
    if available {
        let mut i: usize = 0;
        while i < types.len()
            invariant
                0 <= i <= types.len(),
                all_types == types.deep_view(),
                is_image_mime_marker(marker_spec),
                marker_spec matches Some(f) ==> out.deep_view().len() >= 1 && out.deep_view()[0]
                    == f,
                distinct_seqs(out.deep_view()),
                forall|s: Seq<char>| #[trigger] list_contains_spec(out.deep_view(), s)
                    <==> marker_emits(s, marker_spec) || daemon_emits(
                    s,
                    all_types.subrange(0, i as int),
                ),
            decreases types.len() - i,
        {
            let ghost prefix = all_types.subrange(0, i as int);
            let ghost prefix1 = all_types.subrange(0, i as int + 1);
            proof {
                lemma_target_literals();
                assert(prefix1 =~= prefix.push(all_types[i as int]));
                assert(types.deep_view()[i as int] == types@[i as int]@);
            }
            let t = &types[i];
            let t_bmp = str_eq(t.as_str(), "image/bmp");
            let t_png = str_eq(t.as_str(), "image/png");
            let t_jpeg = str_eq(t.as_str(), "image/jpeg");
            let t_gif = str_eq(t.as_str(), "image/gif");
            let t_webp = str_eq(t.as_str(), "image/webp");
            let t_text = is_text_type(t.as_str());
            if t_bmp {
                push_if_absent(&mut out, "image/png");
            } else if t_png || t_jpeg || t_gif || t_webp {
                push_if_absent(&mut out, t.as_str());
                if t_jpeg {
                    push_if_absent(&mut out, "image/jpg");
                }
            } else if t_text {
                push_if_absent(&mut out, t.as_str());
            }
            proof {
                assert forall|s: Seq<char>| #[trigger] list_contains_spec(out.deep_view(), s)
                    <==> marker_emits(s, marker_spec) || daemon_emits(s, prefix1) by {
                    lemma_contains_push(prefix, all_types[i as int], s);
                    lemma_contains_push(prefix, all_types[i as int], "image/bmp"@);
                    lemma_contains_push(prefix, all_types[i as int], "image/jpeg"@);
                }
            }
            i += 1;
        }
        proof {
            assert(all_types.subrange(0, types.len() as int) =~= all_types);
        }
    }

    // the fresh text type and its legacy token
    let text_fresh = cache.take_text_fresh(now, ttl);
    if text_fresh {
        if !list_contains(&out, "text/plain;charset=utf-8") {
            push_if_absent(&mut out, "text/plain;charset=utf-8");
            push_if_absent(&mut out, "STRING");
        }
    }
    out
}

/// The marker, when present, is a supported raster type.
pub open spec fn is_image_mime_marker(marker: Option<Seq<char>>) -> bool {
    marker matches Some(f) ==> is_image_mime(f)
}

/// Append `m` unless it is already present, preserving distinctness and
/// adding exactly `m` to the membership.
fn push_if_absent(out: &mut Vec<String>, m: &str)
    ensures
        distinct_seqs(old(out).deep_view()) ==> distinct_seqs(final(out).deep_view()),
        forall|s: Seq<char>| #[trigger] list_contains_spec(final(out).deep_view(), s) <==> (
        list_contains_spec(old(out).deep_view(), s) || s == m@),
        final(out).deep_view() =~= old(out).deep_view() || final(out).deep_view() =~= old(
            out,
        ).deep_view().push(m@),
{
    if !list_contains(out, m) {
        let ghost before = *out;
        let pushed = String::from_str(m);
        out.push(pushed);
        proof {
            lemma_deep_view_push(before, *out, pushed);
            assert forall|s: Seq<char>|
                #[trigger] list_contains_spec(out.deep_view(), s) <==> (list_contains_spec(
                before.deep_view(),
                s,
            ) || s == m@) by {
                lemma_contains_push(before.deep_view(), m@, s);
            }
            if distinct_seqs(before.deep_view()) {
                assert forall|i: int, j: int|
                    0 <= i < j < out.deep_view().len() implies out.deep_view()[i]
                    != out.deep_view()[j] by {
                    if j == out.deep_view().len() - 1 {
                        assert(out.deep_view()[i] == before.deep_view()[i]);
                        assert(out.deep_view()[j] == m@);
                        if before.deep_view()[i] == m@ {
                            assert(list_contains_spec(before.deep_view(), m@));
                        }
                    } else {
                        assert(out.deep_view()[i] == before.deep_view()[i]);
                        assert(out.deep_view()[j] == before.deep_view()[j]);
                    }
                }
            }
        }
    }
}

} // verus!
