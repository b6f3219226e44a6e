//! The provider's query language, as far as the catalog writes it.

use vstd::prelude::*;
use vstd::string::StringExecFns;
use crate::http::Header;
use crate::http::Request;
use crate::http::RequestView;
use crate::text::decimal;
use crate::text::decimal_string;
use crate::text::joined;
use crate::text::lemma_decimal_injective;

verus! {

/// The decimal numerals of `ids`, in order.
pub open spec fn numerals(ids: Seq<u64>) -> Seq<Seq<char>> {
    ids.map_values(|id: u64| decimal(id as nat))
}

/// A list of identifiers as a filter takes it: the numerals between round
/// brackets, with commas between them and no spaces. An empty list is
/// written as nothing at all.
pub open spec fn id_list(ids: Seq<u64>) -> Seq<char> {
    if ids.len() == 0 {
        Seq::empty()
    } else {
        "("@ + joined(numerals(ids), ","@) + ")"@
    }
}

/// The query for the names of the entities with the given identifiers.
pub open spec fn names_query(ids: Seq<u64>) -> Seq<char> {
    "fields name; where id = "@ + id_list(ids) + ";"@
}

/// The query for every game, with the fields that a catalog entry needs.
pub open spec fn games_query() -> Seq<char> {
    "fields name,platforms,first_release_date,genres;"@
}

/// The query for the games that a full-text search for `text` finds. The
/// text is passed on as it is.
pub open spec fn search_query(text: Seq<char>) -> Seq<char> {
    "search \""@ + text + "\"; fields name,platforms,first_release_date,genres;"@
}

/// The query for one game with all its fields.
pub open spec fn game_query(id: u64) -> Seq<char> {
    "fields *; where id = "@ + decimal(id as nat) + ";"@
}

/// The query for the first ten hits of a full-text search for `text`.
pub open spec fn hits_query(text: Seq<char>) -> Seq<char> {
    "search \""@ + text + "\"; fields game,name; limit 10;"@
}

/// The request that carries `body` to `endpoint` under a credential.
pub open spec fn request_of(
    client_id: Seq<char>,
    access_token: Seq<char>,
    endpoint: Seq<char>,
    body: Seq<char>,
) -> RequestView {
    RequestView {
        url: "https://api.igdb.com"@ + "/"@ + endpoint,
        headers: seq![
            ("Client-ID"@, client_id),
            ("Authorization"@, "Bearer "@ + access_token),
        ],
        body,
    }
}

/// Writes a list of identifiers as a filter takes it.
pub fn format_ids(ids: &[u64]) -> (r: String)
    ensures
        r@ == id_list(ids@),
{
    if ids.len() == 0 {
        return String::new();
    }
    let mut out = String::from_str("(");
    let mut i: usize = 0;
    while i < ids.len()
        invariant
            i <= ids.len(),
            ids.len() > 0,
            out@ == "("@ + joined(numerals(ids@.take(i as int)), ","@),
        decreases ids.len() - i,
    {
        let ghost before = numerals(ids@.take(i as int));
        let ghost after = numerals(ids@.take(i + 1));
        let numeral = decimal_string(ids[i]);
        proof {
            assert(after.drop_last() =~= before);
            assert(after.last() == numeral@);
        }
        if i > 0 {
            out.append(",");
        }
        out.append(numeral.as_str());
        proof {
            if i == 0 {
                assert(joined(after, ","@) == after[0]);
                assert(joined(before, ","@) =~= Seq::<char>::empty());
                assert(out@ =~= "("@ + joined(after, ","@));
            } else {
                assert(out@ =~= "("@ + (joined(before, ","@) + ","@ + after.last()));
            }
        }
        i = i + 1;
    }
    assert(ids@.take(ids.len() as int) =~= ids@);
    out.append(")");
    out
}

/// Writes the query for the names of the entities with the given
/// identifiers.
pub fn names_query_text(ids: &[u64]) -> (r: String)
    ensures
        r@ == names_query(ids@),
{
    let mut out = String::from_str("fields name; where id = ");
    let list = format_ids(ids);
    out.append(list.as_str());
    out.append(";");
    out
}

/// Builds the request that carries `body` to `endpoint` under a credential:
/// the client identifier and the bearer token travel as two headers.
pub fn build_request(client_id: &str, access_token: &str, endpoint: &str, body: String) -> (r:
    Request)
    ensures
        r@ == request_of(client_id@, access_token@, endpoint@, body@),
{
    let mut url = String::from_str("https://api.igdb.com");
    url.append("/");
    url.append(endpoint);
    let mut bearer = String::from_str("Bearer ");
    bearer.append(access_token);
    let mut headers: Vec<Header> = Vec::new();
    headers.push(
        Header { name: String::from_str("Client-ID"), value: String::from_str(client_id) },
    );
    headers.push(Header { name: String::from_str("Authorization"), value: bearer });
    assert(headers.deep_view() =~= seq![
        ("Client-ID"@, client_id@),
        ("Authorization"@, "Bearer "@ + access_token@),
    ]);
    Request { url, headers, body }
}

/// A list of identifiers without repetitions is written with as many
/// numerals as it has identifiers, in its order, and no numeral twice: each
/// identifier stands in the filter exactly once.
pub proof fn lemma_each_id_written_once(ids: Seq<u64>)
    requires
        ids.no_duplicates(),
    ensures
        numerals(ids).len() == ids.len(),
        forall|i: int| 0 <= i < ids.len() ==> #[trigger] numerals(ids)[i] == decimal(ids[i] as nat),
        numerals(ids).no_duplicates(),
{
    assert forall|i: int, j: int|
        0 <= i < ids.len() && 0 <= j < ids.len() && i != j implies numerals(ids)[i] != numerals(
        ids,
    )[j] by {
        if decimal(ids[i] as nat) == decimal(ids[j] as nat) {
            lemma_decimal_injective(ids[i] as nat, ids[j] as nat);
        }
    }
}

} // verus!
