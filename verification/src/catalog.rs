//! The game catalogue: the listing query with its optional filters, and the
//! status that a write to the catalogue is answered with.

use vstd::prelude::*;
use crate::text::{blank, decimal, decimal_usize, is_blank, law_blank_bounds};

verus! {

/// The optional filters of a listing request (`?name=..&genre=..`).
pub struct GameQuery {
    pub name: Option<String>,
    pub genre: Option<String>,
}

/// A parameterised SQL statement and the values bound to `$1`, `$2`, ... in order.
pub struct BoundQuery {
    pub sql: String,
    pub binds: Vec<String>,
}

/// The statement that lists every game.
pub open spec fn select_all() -> Seq<char> {
    "SELECT id, name, genre, description, release_date, video_url FROM games"@
}

/// A filter takes part only when it is given and not blank.
pub open spec fn filter_used(f: Option<Seq<char>>) -> bool {
    f is Some && !blank(f->0)
}

/// The values bound to the statement: the name as a `%name%` pattern, then the genre.
pub open spec fn listing_binds(name: Option<Seq<char>>, genre: Option<Seq<char>>) -> Seq<Seq<char>> {
    (if filter_used(name) { seq![seq!['%'] + name->0 + seq!['%']] } else { Seq::empty() })
    + (if filter_used(genre) { seq![genre->0] } else { Seq::empty() })
}

/// The conditions of the statement; the `k`-th condition names placeholder `$k`.
pub open spec fn listing_conditions(name: Option<Seq<char>>, genre: Option<Seq<char>>) -> Seq<Seq<char>> {
    let by_name: Seq<Seq<char>> = if filter_used(name) {
        seq!["name ILIKE $"@ + decimal(1)]
    } else {
        Seq::empty()
    };
    by_name + (if filter_used(genre) {
        seq!["genre = $"@ + decimal(by_name.len() as int + 1)]
    } else {
        Seq::empty()
    })
}

/// The parts joined with `" AND "` between them.
pub open spec fn join_and(parts: Seq<Seq<char>>) -> Seq<char>
    decreases parts.len(),
{
    if parts.len() == 0 {
        Seq::empty()
    } else if parts.len() == 1 {
        parts[0]
    } else {
        join_and(parts.drop_last()) + " AND "@ + parts.last()
    }
}

/// The listing statement: every game, restricted by a `WHERE` clause when a filter is used.
pub open spec fn listing_sql(name: Option<Seq<char>>, genre: Option<Seq<char>>) -> Seq<char> {
    let conditions = listing_conditions(name, genre);
    if conditions.len() == 0 {
        select_all()
    } else {
        select_all() + " WHERE "@ + join_and(conditions)
    }
}

fn join_with_and(parts: &Vec<String>) -> (s: String)
    ensures
        s@ == join_and(parts.deep_view()),
{
    let ghost views = parts.deep_view();
    let mut s = String::new();
    let mut i: usize = 0;
    while i < parts.len()
        invariant
            views == parts.deep_view(),
            i <= parts.len(),
            s@ == join_and(views.take(i as int)),
        decreases parts.len() - i,
    {
        proof {
            assert(views.take(i + 1).drop_last() =~= views.take(i as int));
            assert(views[i as int] == parts[i as int]@);
        }
        if i == 0 {
            s.append(parts[i].as_str());
            assert(views.take(1) =~= seq![views[0]]);
        } else {
            s.append(" AND ");
            s.append(parts[i].as_str());
        }
        i = i + 1;
    }
    assert(views.take(parts.len() as int) =~= views);
    s
}

/// Builds the listing statement of the game service and its bound values,
/// adding a `name ILIKE` condition for a non-blank name and a `genre =`
/// condition for a non-blank genre, numbered in that order.
pub fn games_listing(params: &GameQuery) -> (q: BoundQuery)
    ensures
        q.sql@ == listing_sql(params.name.deep_view(), params.genre.deep_view()),
        q.binds.deep_view() == listing_binds(params.name.deep_view(), params.genre.deep_view()),
{
    let ghost name = params.name.deep_view();
    let ghost genre = params.genre.deep_view();
    let mut conditions: Vec<String> = Vec::new();
    let mut values: Vec<String> = Vec::new();

    match &params.name {
        Some(n) => {
            if !is_blank(n.as_str()) {
                let mut c = String::from_str("name ILIKE $");
                c.append(decimal_usize(values.len() + 1).as_str());
                conditions.push(c);
                let mut v = String::from_str("%");
                v.append(n.as_str());
                v.append("%");
                proof {
                    reveal_strlit("%");
                    assert(v@ =~= seq!['%'] + n@ + seq!['%']);
                }
                values.push(v);
            }
        },
        None => {},
    }
    proof {
        assert(conditions.deep_view() =~= (if filter_used(name) { seq!["name ILIKE $"@ + decimal(1)] } else { Seq::<Seq<char>>::empty() }));
        assert(values.deep_view() =~= (if filter_used(name) { seq![seq!['%'] + name->0 + seq!['%']] } else { Seq::<Seq<char>>::empty() }));
    }
    let ghost by_name = conditions.deep_view();
    let ghost name_values = values.deep_view();

    match &params.genre {
        Some(g) => {
            if !is_blank(g.as_str()) {
                let mut c = String::from_str("genre = $");
                c.append(decimal_usize(values.len() + 1).as_str());
                conditions.push(c);
                values.push(g.clone());
            }
        },
        None => {},
    }
    proof {
        assert(conditions.deep_view() =~= listing_conditions(name, genre));
        assert(values.deep_view() =~= listing_binds(name, genre));
    }

    let mut sql = String::from_str("SELECT id, name, genre, description, release_date, video_url FROM games");
    if conditions.len() > 0 {
        sql.append(" WHERE ");
        let joined = join_with_and(&conditions);
        sql.append(joined.as_str());
    }
    BoundQuery { sql, binds: values }
}

/// A blank filter counts as absent: the listing with a blank name is the
/// listing without a name, and likewise for the genre.
pub proof fn law_blank_filter_is_absent(
    name: Option<Seq<char>>,
    genre: Option<Seq<char>>,
    blank_text: Seq<char>,
)
    requires
        blank(blank_text),
    ensures
        listing_sql(Some(blank_text), genre) == listing_sql(None, genre),
        listing_binds(Some(blank_text), genre) == listing_binds(None, genre),
        listing_sql(name, Some(blank_text)) == listing_sql(name, None),
        listing_binds(name, Some(blank_text)) == listing_binds(name, None),
{
}

/// Without filters the listing is every game, with nothing bound.
pub proof fn law_unfiltered_listing()
    ensures
        listing_sql(None, None) == select_all(),
        listing_binds(None, None).len() == 0,
{
}

/// Every placeholder of the listing has its value: there are as many
/// conditions as bound values, and the `k`-th condition (from 1) ends in `$k`.
pub proof fn law_placeholders_match_binds(name: Option<Seq<char>>, genre: Option<Seq<char>>)
    ensures
        listing_conditions(name, genre).len() == listing_binds(name, genre).len(),
        forall|k: int| 0 <= k < listing_conditions(name, genre).len() ==> {
            let c = #[trigger] listing_conditions(name, genre)[k];
            let suffix = seq!['$'] + decimal(k + 1);
            c.len() >= suffix.len() && c.subrange(c.len() - suffix.len(), c.len() as int) == suffix
        },
{
    reveal_strlit("name ILIKE $");
    reveal_strlit("genre = $");
    let conds = listing_conditions(name, genre);
    assert forall|k: int| 0 <= k < conds.len() implies {
        let c = #[trigger] conds[k];
        let suffix = seq!['$'] + decimal(k + 1);
        c.len() >= suffix.len() && c.subrange(c.len() - suffix.len(), c.len() as int) == suffix
    } by {
        let c = conds[k];
        let suffix = seq!['$'] + decimal(k + 1);
        if filter_used(name) && k == 0 {
            assert(c == "name ILIKE $"@ + decimal(1));
            assert(c.subrange(c.len() - suffix.len(), c.len() as int) =~= suffix);
        } else {
            assert(c == "genre = $"@ + decimal(k + 1));
            assert(c.subrange(c.len() - suffix.len(), c.len() as int) =~= suffix);
        }
    }
}

/// A filter that holds a visible character (a letter, a digit, punctuation)
/// is used: the listing by such a name is `... WHERE name ILIKE $1` bound to
/// `%name%`, by such a genre `... WHERE genre = $1` bound to the genre, and
/// by both `... WHERE name ILIKE $1 AND genre = $2` bound in that order.
pub proof fn law_listing_statements(name: Seq<char>, genre: Seq<char>, i: int, j: int)
    requires
        0 <= i < name.len(),
        0x21 <= name[i] as u32 <= 0x7E,
        0 <= j < genre.len(),
        0x21 <= genre[j] as u32 <= 0x7E,
    ensures
        listing_sql(Some(name), None)
            == "SELECT id, name, genre, description, release_date, video_url FROM games WHERE name ILIKE $1"@,
        listing_binds(Some(name), None) == seq![seq!['%'] + name + seq!['%']],
        listing_sql(None, Some(genre))
            == "SELECT id, name, genre, description, release_date, video_url FROM games WHERE genre = $1"@,
        listing_binds(None, Some(genre)) == seq![genre],
        listing_sql(Some(name), Some(genre))
            == "SELECT id, name, genre, description, release_date, video_url FROM games WHERE name ILIKE $1 AND genre = $2"@,
        listing_binds(Some(name), Some(genre)) == seq![seq!['%'] + name + seq!['%'], genre],
        listing_sql(None, None) == "SELECT id, name, genre, description, release_date, video_url FROM games"@,
        listing_binds(None, None) == Seq::<Seq<char>>::empty(),
{
    law_blank_bounds(name);
    law_blank_bounds(genre);
    assert(filter_used(Some(name)));
    assert(filter_used(Some(genre)));
    reveal_strlit("SELECT id, name, genre, description, release_date, video_url FROM games");
    reveal_strlit("SELECT id, name, genre, description, release_date, video_url FROM games WHERE name ILIKE $1");
    reveal_strlit("SELECT id, name, genre, description, release_date, video_url FROM games WHERE genre = $1");
    reveal_strlit("SELECT id, name, genre, description, release_date, video_url FROM games WHERE name ILIKE $1 AND genre = $2");
    reveal_strlit(" WHERE ");
    reveal_strlit(" AND ");
    reveal_strlit("name ILIKE $");
    reveal_strlit("genre = $");
    assert(decimal(1) =~= seq!['1']);
    assert(decimal(2) =~= seq!['2']);
    let c1 = listing_conditions(Some(name), None);
    assert(c1 =~= seq!["name ILIKE $"@ + decimal(1)]);
    assert(join_and(c1) == c1[0]);
    assert(listing_sql(Some(name), None)
        =~= "SELECT id, name, genre, description, release_date, video_url FROM games WHERE name ILIKE $1"@);
    let c2 = listing_conditions(None, Some(genre));
    assert(c2 =~= seq!["genre = $"@ + decimal(1)]);
    assert(join_and(c2) == c2[0]);
    assert(listing_sql(None, Some(genre))
        =~= "SELECT id, name, genre, description, release_date, video_url FROM games WHERE genre = $1"@);
    let c3 = listing_conditions(Some(name), Some(genre));
    assert(c3 =~= seq!["name ILIKE $"@ + decimal(1), "genre = $"@ + decimal(2)]);
    assert(c3.drop_last() =~= seq!["name ILIKE $"@ + decimal(1)]);
    assert(join_and(c3.drop_last()) == c3[0]);
    assert(join_and(c3) == c3[0] + " AND "@ + c3[1]);
    assert(listing_sql(Some(name), Some(genre))
        =~= "SELECT id, name, genre, description, release_date, video_url FROM games WHERE name ILIKE $1 AND genre = $2"@);
    assert(listing_binds(Some(name), None) =~= seq![seq!['%'] + name + seq!['%']]);
    assert(listing_binds(None, Some(genre)) =~= seq![genre]);
    assert(listing_binds(Some(name), Some(genre)) =~= seq![seq!['%'] + name + seq!['%'], genre]);
    assert(listing_binds(None, None) =~= Seq::<Seq<char>>::empty());
}

/// The status that an update or a deletion of a game is answered with:
/// 204 No Content when the statement ran, 500 when the database refused it.
pub fn write_status(succeeded: bool) -> (status: u16)
    ensures
        status == (if succeeded { 204u16 } else { 500u16 }),
{
    if succeeded { 204 } else { 500 }
}

} // verus!
