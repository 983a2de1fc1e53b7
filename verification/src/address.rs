//! The addressing layer: one deterministic backing-store account per
//! `(service, username, credential type)` triple.

use vstd::prelude::*;
use vstd::string::StringExecFns;

use crate::models::CredentialType;

verus! {

/// The address derived from a triple: `service`, `username` and the
/// credential kind's canonical name, joined by `/`.  Being a spec function,
/// it is pure and deterministic by construction.
pub open spec fn address_spec(
    service: Seq<char>,
    username: Seq<char>,
    credential_type: CredentialType,
) -> Seq<char> {
    service + "/"@ + username + "/"@ + credential_type.name_spec()
}

/// Derive the backing-store account string for a triple.  Total over its
/// domain: it never fails.
pub fn build_address(service: &str, username: &str, credential_type: CredentialType) -> (r:
    String)
    ensures
        r@ == address_spec(service@, username@, credential_type),
{
    let mut r = String::new();
    r.append(service);
    r.append("/");
    r.append(username);
    r.append("/");
    r.append(credential_type.canonical_name());
    proof {
        assert(r@ =~= address_spec(service@, username@, credential_type));
    }
    r
}

/// Under one service, two triples derive the same address exactly when their
/// `(username, credential type)` pairs are equal: the same logical credential
/// always resolves to the same entry, and distinct pairs never collide, even
/// when a username itself contains `/`.
pub proof fn lemma_address_injective(
    service: Seq<char>,
    username1: Seq<char>,
    type1: CredentialType,
    username2: Seq<char>,
    type2: CredentialType,
)
    ensures
        address_spec(service, username1, type1) == address_spec(service, username2, type2)
            <==> (username1 == username2 && type1 == type2),
{
    reveal_strlit("/");
    reveal_strlit("password");
    reveal_strlit("secret");
    let a1 = address_spec(service, username1, type1);
    let a2 = address_spec(service, username2, type2);
    let name1 = type1.name_spec();
    let name2 = type2.name_spec();
    assert(a1.len() == service.len() + 1 + username1.len() + 1 + name1.len());
    assert(a2.len() == service.len() + 1 + username2.len() + 1 + name2.len());
    if a1 == a2 {
        if type1 != type2 {
            // The two canonical names end differently: five characters from
            // the end, one address holds 's' and the other 'e', so the
            // addresses cannot be equal.
            assert("password"@.len() == 8 && "secret"@.len() == 6);
            assert(name1[name1.len() - 5] != name2[name2.len() - 5]) by {
                assert("password"@[3] == 's');
                assert("secret"@[1] == 'e');
            }
            let i = a1.len() - 5;
            assert(a1[i] == name1[name1.len() - 5]);
            assert(a2[i] == name2[name2.len() - 5]);
            assert(false);
        }
        assert(name1 == name2);
        assert(username1.len() == username2.len());
        assert forall|i: int| 0 <= i < username1.len() implies username1[i] == username2[i] by {
            let j = service.len() + 1 + i;
            assert(a1[j] == username1[i]);
            assert(a2[j] == username2[i]);
        }
        assert(username1 =~= username2);
    }
}

} // verus!
