//! Matrix user IDs and their localparts.
//!
//! A fully-qualified user ID reads `@<localpart>:<server name>`. The localpart
//! holds no colon, so it ends at the first colon of the ID; the server name
//! is everything after that colon, compared character by character.

use crate::error::{Error, ErrorView};
use vstd::prelude::*;
use vstd::std_specs::iter::IteratorSpec;
use vstd::string::StrSliceExecFns;

verus! {

/// The user ID of the user `localpart` on the server `server_name`.
pub open spec fn full_user_id(localpart: Seq<char>, server_name: Seq<char>) -> Seq<char> {
    seq!['@'] + localpart + seq![':'] + server_name
}

/// `localpart` is what `user_id` names on the server `server_name`.
pub open spec fn is_localpart_of(
    localpart: Seq<char>,
    user_id: Seq<char>,
    server_name: Seq<char>,
) -> bool {
    &&& !localpart.contains(':')
    &&& user_id == full_user_id(localpart, server_name)
}

/// `user_id` names some user of the server `server_name`.
pub open spec fn is_user_of(user_id: Seq<char>, server_name: Seq<char>) -> bool {
    exists|localpart: Seq<char>| is_localpart_of(localpart, user_id, server_name)
}

/// The localpart that `user_id` names on `server_name`, where it names one.
pub open spec fn localpart_of(user_id: Seq<char>, server_name: Seq<char>) -> Seq<char> {
    choose|localpart: Seq<char>| is_localpart_of(localpart, user_id, server_name)
}

/// A user ID names at most one localpart on a given server.
pub proof fn lemma_localpart_unique(
    first: Seq<char>,
    second: Seq<char>,
    user_id: Seq<char>,
    server_name: Seq<char>,
)
    requires
        is_localpart_of(first, user_id, server_name),
        is_localpart_of(second, user_id, server_name),
    ensures
        first == second,
{
    if first.len() < second.len() {
        assert(user_id[1 + first.len() as int] == ':');
        assert(second[first.len() as int] == user_id[1 + first.len() as int]);
        assert(second.contains(':'));
    } else if second.len() < first.len() {
        assert(user_id[1 + second.len() as int] == ':');
        assert(first[second.len() as int] == user_id[1 + second.len() as int]);
        assert(first.contains(':'));
    } else {
        assert forall|i: int| 0 <= i < first.len() implies first[i] == second[i] by {
            assert(first[i] == user_id[1 + i]);
            assert(second[i] == user_id[1 + i]);
        }
        assert(first =~= second);
    }
}

/// Putting a localpart back between the sigil and the server name gives the
/// user ID it was taken from, and taking the localpart of a built user ID
/// gives the localpart back.
pub proof fn law_localpart_round_trip(localpart: Seq<char>, server_name: Seq<char>)
    requires
        !localpart.contains(':'),
    ensures
        is_user_of(full_user_id(localpart, server_name), server_name),
        localpart_of(full_user_id(localpart, server_name), server_name) == localpart,
{
    let user_id = full_user_id(localpart, server_name);
    assert(is_localpart_of(localpart, user_id, server_name));
    lemma_localpart_unique(localpart_of(user_id, server_name), localpart, user_id, server_name);
}

/// No localpart fits a user ID whose first colon, at `colon`, is not followed
/// by exactly the server name, and the one before the colon fits where it is.
proof fn lemma_first_colon(user_id: Seq<char>, server_name: Seq<char>, colon: int)
    requires
        1 <= colon < user_id.len(),
        user_id[0] == '@',
        user_id[colon] == ':',
        forall|j: int| 1 <= j < colon ==> user_id[j] != ':',
    ensures
        is_user_of(user_id, server_name) <==> user_id.skip(colon + 1) == server_name,
        user_id.skip(colon + 1) == server_name ==> is_localpart_of(
            user_id.subrange(1, colon),
            user_id,
            server_name,
        ),
{
    let before = user_id.subrange(1, colon);
    if user_id.skip(colon + 1) == server_name {
        assert(!before.contains(':')) by {
            if before.contains(':') {
                let j = choose|j: int| 0 <= j < before.len() && before[j] == ':';
                assert(user_id[j + 1] == ':');
            }
        }
        assert(user_id =~= full_user_id(before, server_name));
        assert(is_localpart_of(before, user_id, server_name));
    }
    if is_user_of(user_id, server_name) {
        let localpart = localpart_of(user_id, server_name);
        assert(user_id[1 + localpart.len() as int] == ':');
        if colon < 1 + localpart.len() {
            assert(localpart[colon - 1] == user_id[colon]);
            assert(localpart.contains(':'));
        }
        assert(localpart.len() == colon - 1);
        assert(user_id.skip(colon + 1) =~= server_name);
    }
}

/// Splits the fully-qualified `user_id` and returns its localpart, provided
/// that the ID starts with `@`, holds a colon, and names exactly
/// `server_name` after its first colon. Any other ID is refused as
/// [`Error::InvalidUserId`], carrying the ID as it was given.
pub fn extract_localpart(user_id: &str, server_name: &str) -> (localpart: Result<String, Error>)
    ensures
        match localpart {
            Ok(localpart) => is_localpart_of(localpart@, user_id@, server_name@),
            Err(error) => {
                &&& !is_user_of(user_id@, server_name@)
                &&& error@ == (ErrorView::InvalidUserId { user: user_id@ })
            },
        },
{
    let len = user_id.unicode_len();
    let mut chars = user_id.chars();
    match chars.next() {
        Some('@') => {},
        _ => {
            assert(!is_user_of(user_id@, server_name@)) by {
                if is_user_of(user_id@, server_name@) {
                    let l = localpart_of(user_id@, server_name@);
                    assert(full_user_id(l, server_name@)[0] == '@');
                }
            }
            return Err(Error::InvalidUserId { user: user_id.to_owned() });
        },
    }
    let mut colon: usize = 1;
    loop
        invariant_except_break
            chars.remaining() == user_id@.skip(colon as int),
        invariant
            len == user_id@.len(),
            1 <= colon <= len,
            user_id@[0] == '@',
            chars.obeys_prophetic_iter_laws(),
            forall|j: int| 1 <= j < colon ==> user_id@[j] != ':',
        ensures
            colon < user_id@.len(),
            user_id@[colon as int] == ':',
            chars.remaining() == user_id@.skip(colon + 1),
        decreases len - colon,
    {
        match chars.next() {
            None => {
                assert(!is_user_of(user_id@, server_name@)) by {
                    if is_user_of(user_id@, server_name@) {
                        let l = localpart_of(user_id@, server_name@);
                        assert(user_id@[1 + l.len() as int] == ':');
                    }
                }
                return Err(Error::InvalidUserId { user: user_id.to_owned() });
            },
            Some(c) => {
                assert(c == user_id@[colon as int]);
                assert(user_id@.skip(colon as int).drop_first() =~= user_id@.skip(colon + 1));
                if c == ':' {
                    break ;
                }
                colon += 1;
            },
        }
    }
    let mut expected = server_name.chars();
    let ghost mut matched: int = 0;
    loop
        invariant
            1 <= colon < user_id@.len(),
            0 <= matched,
            colon + 1 + matched <= user_id@.len(),
            matched <= server_name@.len(),
            user_id@[0] == '@',
            user_id@[colon as int] == ':',
            forall|j: int| 1 <= j < colon ==> user_id@[j] != ':',
            chars.obeys_prophetic_iter_laws(),
            expected.obeys_prophetic_iter_laws(),
            chars.remaining() == user_id@.skip(colon + 1 + matched),
            expected.remaining() == server_name@.skip(matched),
            forall|i: int| 0 <= i < matched ==> user_id@[colon + 1 + i] == server_name@[i],
        ensures
            user_id@.skip(colon + 1) == server_name@,
        decreases server_name@.len() - matched,
    {
        let found = chars.next();
        let wanted = expected.next();
        match (found, wanted) {
            (None, None) => {
                assert(user_id@.skip(colon + 1) =~= server_name@);
                break ;
            },
            (Some(a), Some(b)) => {
                if a != b {
                    assert(user_id@.skip(colon + 1) != server_name@) by {
                        assert(user_id@.skip(colon + 1)[matched] == a);
                        assert(server_name@[matched] == b);
                    }
                    proof {
                        lemma_first_colon(user_id@, server_name@, colon as int);
                    }
                    return Err(Error::InvalidUserId { user: user_id.to_owned() });
                }
                assert(user_id@.skip(colon + 1 + matched).drop_first() =~= user_id@.skip(
                    colon + 1 + matched + 1,
                ));
                assert(server_name@.skip(matched).drop_first() =~= server_name@.skip(matched + 1));
                proof {
                    matched = matched + 1;
                }
            },
            _ => {
                assert(user_id@.skip(colon + 1).len() != server_name@.len());
                proof {
                    lemma_first_colon(user_id@, server_name@, colon as int);
                }
                return Err(Error::InvalidUserId { user: user_id.to_owned() });
            },
        }
    }
    proof {
        lemma_first_colon(user_id@, server_name@, colon as int);
    }
    Ok(user_id.substring_char(1, colon).to_owned())
}

} // verus!
