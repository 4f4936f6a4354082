use vstd::prelude::*;
use crate::cartridge::{company_spec, header_checksum, title_spec, CartridgeHeader};
use crate::palette::SortMethod;
use crate::visual::{bytes_contain, contains_bytes};

verus! {

/// A ROM found in a library directory, with the title and company its header names.
pub struct GameEntry {
    pub path: String,
    pub filename: String,
    pub title: String,
    pub company: String,
}

/// The lowercase form of a text, as `str::to_lowercase` maps it (Unicode's full mapping).
pub uninterp spec fn lowercase(s: Seq<char>) -> Seq<char>;

/// `str::to_lowercase`; its result is named by `lowercase`, a function of the text alone.
#[verifier::external_body]
fn to_lowercase(s: &str) -> (r: String)
    ensures
        r@ == lowercase(s@),
{
    s.to_lowercase()
}

/// Byte-wise lexicographic order, the order of `str::cmp`: `a` does not come after `b`.
pub open spec fn lex_le(a: Seq<u8>, b: Seq<u8>) -> bool
    decreases a.len(),
{
    if a.len() == 0 {
        true
    } else if b.len() == 0 {
        false
    } else if a[0] != b[0] {
        a[0] < b[0]
    } else {
        lex_le(a.drop_first(), b.drop_first())
    }
}

/// Any two byte strings are ordered one way or the other.
pub proof fn lemma_lex_total(a: Seq<u8>, b: Seq<u8>)
    ensures
        lex_le(a, b) || lex_le(b, a),
    decreases a.len(),
{
    if a.len() > 0 && b.len() > 0 && a[0] == b[0] {
        lemma_lex_total(a.drop_first(), b.drop_first());
    }
}

fn bytes_le(a: &[u8], b: &[u8]) -> (r: bool)
    ensures
        r == lex_le(a@, b@),
{
    let mut i: usize = 0;
    assert(a@.skip(0) =~= a@);
    assert(b@.skip(0) =~= b@);
    while i < a.len() && i < b.len()
        invariant
            i <= a@.len(),
            i <= b@.len(),
            lex_le(a@, b@) == lex_le(a@.skip(i as int), b@.skip(i as int)),
        decreases a.len() - i,
    {
        if a[i] != b[i] {
            return a[i] < b[i];
        }
        assert(a@.skip(i as int).drop_first() =~= a@.skip(i + 1));
        assert(b@.skip(i as int).drop_first() =~= b@.skip(i + 1));
        i = i + 1;
    }
    i == a.len()
}

/// The text a game is ordered by.
pub open spec fn sort_key(g: GameEntry, sort_by: SortMethod) -> Seq<u8> {
    match sort_by {
        SortMethod::Filename => vstd::utf8::encode_utf8(g.filename@),
        SortMethod::Title => vstd::utf8::encode_utf8(g.title@),
        SortMethod::Company => vstd::utf8::encode_utf8(g.company@),
    }
}

/// Whether game `a` may stand right before game `b`: its key comes first in the chosen
/// direction, and of two equal keys the game listed first stays first.
pub open spec fn may_precede(games: Seq<GameEntry>, sort_by: SortMethod, ascending: bool, a: int, b: int) -> bool {
    let ka = sort_key(games[a], sort_by);
    let kb = sort_key(games[b], sort_by);
    &&& if ascending { lex_le(ka, kb) } else { lex_le(kb, ka) }
    &&& lex_le(ka, kb) && lex_le(kb, ka) ==> a < b
}

/// Whether a game shows under a (lowercased) search query: the query is empty, or the
/// lowercased file name, title or company contains it.
pub open spec fn game_matches(g: GameEntry, query: Seq<char>) -> bool {
    ||| query.len() == 0
    ||| contains_bytes(vstd::utf8::encode_utf8(lowercase(g.filename@)), vstd::utf8::encode_utf8(query))
    ||| contains_bytes(vstd::utf8::encode_utf8(lowercase(g.title@)), vstd::utf8::encode_utf8(query))
    ||| contains_bytes(vstd::utf8::encode_utf8(lowercase(g.company@)), vstd::utf8::encode_utf8(query))
}

fn text_contains(hay: &String, needle: &String) -> (r: bool)
    ensures
        r == contains_bytes(vstd::utf8::encode_utf8(lowercase(hay@)), vstd::utf8::encode_utf8(needle@)),
{
    let lower = to_lowercase(hay.as_str());
    bytes_contain(lower.as_str().as_bytes(), needle.as_str().as_bytes())
}

fn sort_key_le(games: &Vec<GameEntry>, sort_by: SortMethod, a: usize, b: usize) -> (r: bool)
    requires
        a < games.len(),
        b < games.len(),
    ensures
        r == lex_le(sort_key(games@[a as int], sort_by), sort_key(games@[b as int], sort_by)),
{
    match sort_by {
        SortMethod::Filename => bytes_le(games[a].filename.as_str().as_bytes(), games[b].filename.as_str().as_bytes()),
        SortMethod::Title => bytes_le(games[a].title.as_str().as_bytes(), games[b].title.as_str().as_bytes()),
        SortMethod::Company => bytes_le(games[a].company.as_str().as_bytes(), games[b].company.as_str().as_bytes()),
    }
}

/// Whether game `x` is to stand before game `y` in the list (the key of `x` comes strictly
/// first in the chosen direction).
fn goes_before(games: &Vec<GameEntry>, sort_by: SortMethod, ascending: bool, x: usize, y: usize) -> (r: bool)
    requires
        x < games.len(),
        y < games.len(),
    ensures
        r == if ascending {
            !lex_le(sort_key(games@[y as int], sort_by), sort_key(games@[x as int], sort_by))
        } else {
            !lex_le(sort_key(games@[x as int], sort_by), sort_key(games@[y as int], sort_by))
        },
{
    if ascending {
        !sort_key_le(games, sort_by, y, x)
    } else {
        !sort_key_le(games, sort_by, x, y)
    }
}

/// Inserts game `i` into a list of smaller indices kept in order: after every game it does
/// not go before.
fn insert_sorted(out: &mut Vec<usize>, games: &Vec<GameEntry>, sort_by: SortMethod, ascending: bool, i: usize)
    requires
        i < games@.len(),
        forall|k: int| 0 <= k < old(out)@.len() ==> old(out)@[k] < i,
        forall|k: int, l: int| 0 <= k < l < old(out)@.len() ==> old(out)@[k] != old(out)@[l],
        forall|k: int|
            0 <= k < old(out)@.len() - 1 ==> may_precede(games@, sort_by, ascending, #[trigger] old(out)@[k] as int, old(out)@[k + 1] as int),
    ensures
        forall|k: int| 0 <= k < final(out)@.len() ==> final(out)@[k] <= i,
        forall|j: usize| final(out)@.contains(j) <==> (old(out)@.contains(j) || j == i),
        forall|k: int, l: int| 0 <= k < l < final(out)@.len() ==> final(out)@[k] != final(out)@[l],
        forall|k: int|
            0 <= k < final(out)@.len() - 1 ==> may_precede(games@, sort_by, ascending, #[trigger] final(out)@[k] as int, final(out)@[k + 1] as int),
{
    let mut p: usize = 0;
    while p < out.len() && !goes_before(games, sort_by, ascending, i, out[p])
        invariant
            p <= out@.len(),
            i < games@.len(),
            forall|k: int| 0 <= k < out@.len() ==> out@[k] < i,
            forall|k: int|
                0 <= k < p ==> !(if ascending {
                    !lex_le(sort_key(games@[out@[k] as int], sort_by), sort_key(games@[i as int], sort_by))
                } else {
                    !lex_le(sort_key(games@[i as int], sort_by), sort_key(games@[out@[k] as int], sort_by))
                }),
        decreases out.len() - p,
    {
        p = p + 1;
    }
    let ghost before = out@;
    proof {
        if p > 0 {
            lemma_lex_total(sort_key(games@[before[p - 1] as int], sort_by), sort_key(games@[i as int], sort_by));
        }
        if p < before.len() {
            lemma_lex_total(sort_key(games@[before[p as int] as int], sort_by), sort_key(games@[i as int], sort_by));
        }
    }
    out.insert(p, i);
    proof {
        assert(out@ =~= before.subrange(0, p as int).push(i).add(before.subrange(p as int, before.len() as int)));
        assert forall|k: int| 0 <= k < out@.len() - 1 implies may_precede(
            games@,
            sort_by,
            ascending,
            #[trigger] out@[k] as int,
            out@[k + 1] as int,
        ) by {
            if k < p - 1 {
                assert(out@[k] == before[k] && out@[k + 1] == before[k + 1]);
            } else if k == p - 1 {
                assert(out@[k] == before[k] && out@[k + 1] == i);
            } else if k == p {
                assert(out@[k] == i && out@[k + 1] == before[k]);
            } else {
                assert(out@[k] == before[k - 1] && out@[k + 1] == before[k]);
            }
        }
        assert forall|j: usize| out@.contains(j) <==> (before.contains(j) || j == i) by {
            if before.contains(j) {
                let k = choose|k: int| 0 <= k < before.len() && before[k] == j;
                if k < p {
                    assert(out@[k] == before[k]);
                } else {
                    assert(out@[k + 1] == before[k]);
                }
            }
            if j == i {
                assert(out@[p as int] == i);
            }
            if out@.contains(j) {
                let k = choose|k: int| 0 <= k < out@.len() && out@[k] == j;
                if k < p {
                    assert(before[k] == out@[k]);
                } else if k > p {
                    assert(before[k - 1] == out@[k]);
                }
            }
        }
        assert forall|k: int, l: int| 0 <= k < l < out@.len() implies out@[k] != out@[l] by {
            if k < p && l < p {
                assert(out@[k] == before[k] && out@[l] == before[l]);
            } else if k < p && l == p {
                assert(out@[k] == before[k]);
            } else if k < p {
                assert(out@[k] == before[k] && out@[l] == before[l - 1]);
            } else if k == p {
                assert(out@[l] == before[l - 1]);
            } else {
                assert(out@[k] == before[k - 1] && out@[l] == before[l - 1]);
            }
        }
    }
}

/// The games the library table shows, as indices into `games`: those that match the search
/// query (compared in lowercase), in the chosen order, ties in library order.
pub fn visible_games(games: &Vec<GameEntry>, search_query: &str, sort_by: SortMethod, ascending: bool) -> (r: Vec<
    usize,
>)
    ensures
        forall|k: int| 0 <= k < r@.len() ==> r@[k] < games@.len(),
        forall|i: int|
            0 <= i < games@.len() ==> (r@.contains(i as usize) <==> game_matches(games@[i], lowercase(search_query@))),
        forall|k: int, l: int| 0 <= k < l < r@.len() ==> r@[k] != r@[l],
        forall|k: int|
            0 <= k < r@.len() - 1 ==> may_precede(games@, sort_by, ascending, #[trigger] r@[k] as int, r@[k + 1] as int),
{
    let query = to_lowercase(search_query);
    let mut out: Vec<usize> = Vec::new();
    let mut i: usize = 0;
    while i < games.len()
        invariant
            i <= games@.len(),
            query@ == lowercase(search_query@),
            forall|k: int| 0 <= k < out@.len() ==> out@[k] < i,
            forall|j: int| 0 <= j < i ==> (out@.contains(j as usize) <==> game_matches(games@[j], query@)),
            forall|k: int, l: int| 0 <= k < l < out@.len() ==> out@[k] != out@[l],
            forall|k: int|
                0 <= k < out@.len() - 1 ==> may_precede(games@, sort_by, ascending, #[trigger] out@[k] as int, out@[k + 1] as int),
        decreases games.len() - i,
    {
        let g = &games[i];
        let shown = query.as_str().is_empty() || text_contains(&g.filename, &query) || text_contains(&g.title, &query)
            || text_contains(&g.company, &query);
        assert(shown == game_matches(games@[i as int], query@));
        if shown {
            insert_sorted(&mut out, games, sort_by, ascending, i);
        } else {
            proof {
                if out@.contains(i) {
                    let k = choose|k: int| 0 <= k < out@.len() && out@[k] == i;
                    assert(out@[k] < i);
                }
            }
        }
        i = i + 1;
    }
    out
}

/// The title and company a library lists for a ROM whose first bytes are `header_bytes`:
/// those its header names when the header is whole and its checksum matches, else
/// "Unknown Title" and "Unknown Company".
pub fn game_labels(header_bytes: &Vec<u8>) -> (r: (String, String))
    requires
        header_bytes@.len() > 0x14D && header_checksum(header_bytes@) == header_bytes@[0x14D] ==> header_bytes@[0x148] <= 26,
    ensures
        header_bytes@.len() > 0x14D && header_checksum(header_bytes@) == header_bytes@[0x14D] ==> r.0@ == title_spec(
            header_bytes@,
        ) && r.1@ == company_spec(header_bytes@[0x14B], header_bytes@.subrange(0x144, 0x146)),
        !(header_bytes@.len() > 0x14D && header_checksum(header_bytes@) == header_bytes@[0x14D]) ==> r.0@
            == "Unknown Title"@ && r.1@ == "Unknown Company"@,
{
    if header_bytes.len() > 0x14D {
        match CartridgeHeader::new(header_bytes) {
            Ok(header) => {
                return (header.title, header.company);
            },
            Err(_) => {},
        }
    }
    (String::from_str("Unknown Title"), String::from_str("Unknown Company"))
}

/// Whether a file with this extension belongs in the library: `gb`, `gbc` or `zip`, in any
/// case.
pub fn is_library_extension(ext: &str) -> (r: bool)
    ensures
        r == (lowercase(ext@) == "gb"@ || lowercase(ext@) == "gbc"@ || lowercase(ext@) == "zip"@),
{
    let lower = to_lowercase(ext);
    lower == String::from_str("gb") || lower == String::from_str("gbc") || lower == String::from_str("zip")
}

} // verus!
