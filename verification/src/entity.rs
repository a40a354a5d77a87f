//! Configuration and identity-claim entities, and the normalization of the
//! configured certificate into its public-key encoding.

use std::collections::HashMap;
use vstd::prelude::*;
use crate::text::push_char;

verus! {

broadcast use vstd::string::group_string_axioms;

/// Process configuration. The public key arrives in certificate form and is
/// normalized with [`Config::with_public_key`] before the token verifier
/// uses it.
#[derive(Debug, Clone)]
pub struct Config {
    pub address: String,
    pub port: u16,
    pub endpoint: String,
    pub client_id: String,
    pub client_secret: String,
    pub jwt_pub_key: String,
    pub org_name: String,
    pub app_name: Option<String>,
    pub permission_name: String,
}

/// The identity claim set decoded from a verified token. Only `owner` and
/// `name` feed the authorization decision; every other field is
/// informational.
#[derive(Debug, Clone, PartialEq, Eq)]
pub struct CasdoorUser {
    pub owner: String,
    pub name: String,
    pub created_time: String,
    pub updated_time: String,
    pub id: String,
    pub user_type: String,
    pub password: String,
    pub display_name: String,
    pub avatar: String,
    pub permanent_avatar: String,
    pub email: String,
    pub phone: String,
    pub location: String,
    pub address: Vec<String>,
    pub affiliation: String,
    pub title: String,
    pub id_card_type: String,
    pub id_card: String,
    pub homepage: String,
    pub bio: String,
    pub tag: String,
    pub region: String,
    pub language: String,
    pub score: i32,
    pub ranking: i32,
    pub is_online: bool,
    pub is_admin: bool,
    pub is_global_admin: bool,
    pub is_forbidden: bool,
    pub signup_application: String,
    pub hash: String,
    pub pre_hash: String,
    pub github: String,
    pub google: String,
    pub qq: String,
    pub wechat: String,
    pub facebook: String,
    pub dingtalk: String,
    pub weibo: String,
    pub gitee: String,
    pub linkedin: String,
    pub wecom: String,
    pub lark: String,
    pub gitlab: String,
    pub ldap: String,
    pub properties: HashMap<String, String>,
}

/// The subject identity a claim set stands for: `owner/name`.
pub open spec fn spec_subject(owner: Seq<char>, name: Seq<char>) -> Seq<char> {
    owner + seq!['/'] + name
}

/// Every informational field of a claim set is empty: only `owner` and
/// `name` carry anything the pipeline could read.
pub open spec fn informational_empty(u: CasdoorUser) -> bool {
    u.created_time@ == Seq::<char>::empty() && u.updated_time@ == Seq::<char>::empty() && u.id@
        == Seq::<char>::empty() && u.user_type@ == Seq::<char>::empty() && u.password@
        == Seq::<char>::empty() && u.display_name@ == Seq::<char>::empty() && u.avatar@
        == Seq::<char>::empty() && u.permanent_avatar@ == Seq::<char>::empty() && u.email@
        == Seq::<char>::empty() && u.phone@ == Seq::<char>::empty() && u.location@
        == Seq::<char>::empty() && u.address@ == Seq::<String>::empty() && u.affiliation@
        == Seq::<char>::empty() && u.title@ == Seq::<char>::empty() && u.id_card_type@
        == Seq::<char>::empty() && u.id_card@ == Seq::<char>::empty() && u.homepage@
        == Seq::<char>::empty() && u.bio@ == Seq::<char>::empty() && u.tag@
        == Seq::<char>::empty() && u.region@ == Seq::<char>::empty() && u.language@
        == Seq::<char>::empty() && u.score == 0 && u.ranking == 0 && !u.is_online && !u.is_admin
        && !u.is_global_admin && !u.is_forbidden && u.signup_application@
        == Seq::<char>::empty() && u.hash@ == Seq::<char>::empty() && u.pre_hash@
        == Seq::<char>::empty() && u.github@ == Seq::<char>::empty() && u.google@
        == Seq::<char>::empty() && u.qq@ == Seq::<char>::empty() && u.wechat@
        == Seq::<char>::empty() && u.facebook@ == Seq::<char>::empty() && u.dingtalk@
        == Seq::<char>::empty() && u.weibo@ == Seq::<char>::empty() && u.gitee@
        == Seq::<char>::empty() && u.linkedin@ == Seq::<char>::empty() && u.wecom@
        == Seq::<char>::empty() && u.lark@ == Seq::<char>::empty() && u.gitlab@
        == Seq::<char>::empty() && u.ldap@ == Seq::<char>::empty() && u.properties@ == Map::<
        String,
        String,
    >::empty()
}

impl CasdoorUser {
    /// A claim set carrying the two fields the pipeline trusts; every
    /// informational field is left empty.
    pub fn new(owner: String, name: String) -> (u: CasdoorUser)
        ensures
            u.owner@ == owner@,
            u.name@ == name@,
            informational_empty(u),
    {
        CasdoorUser {
            owner,
            name,
            created_time: String::new(),
            updated_time: String::new(),
            id: String::new(),
            user_type: String::new(),
            password: String::new(),
            display_name: String::new(),
            avatar: String::new(),
            permanent_avatar: String::new(),
            email: String::new(),
            phone: String::new(),
            location: String::new(),
            address: Vec::new(),
            affiliation: String::new(),
            title: String::new(),
            id_card_type: String::new(),
            id_card: String::new(),
            homepage: String::new(),
            bio: String::new(),
            tag: String::new(),
            region: String::new(),
            language: String::new(),
            score: 0,
            ranking: 0,
            is_online: false,
            is_admin: false,
            is_global_admin: false,
            is_forbidden: false,
            signup_application: String::new(),
            hash: String::new(),
            pre_hash: String::new(),
            github: String::new(),
            google: String::new(),
            qq: String::new(),
            wechat: String::new(),
            facebook: String::new(),
            dingtalk: String::new(),
            weibo: String::new(),
            gitee: String::new(),
            linkedin: String::new(),
            wecom: String::new(),
            lark: String::new(),
            gitlab: String::new(),
            ldap: String::new(),
            properties: HashMap::new(),
        }
    }

    /// The stable subject identity `owner/name` the policy is evaluated
    /// against and the identity header carries.
    pub fn subject(&self) -> (s: String)
        ensures
            s@ == spec_subject(self.owner@, self.name@),
    {
        let mut s = self.owner.clone();
        push_char(&mut s, '/');
        s.append(self.name.as_str());
        s
    }
}

/// The certificate marker text replaced during key normalization.
pub open spec fn cert_marker() -> Seq<char> {
    "CERTIFICATE"@
}

/// The public-key marker text written in its place.
pub open spec fn key_marker() -> Seq<char> {
    "PUBLIC KEY"@
}

/// The configured key text with every occurrence of the certificate marker
/// replaced, left to right, by the public-key marker.
pub open spec fn replace_cert(s: Seq<char>) -> Seq<char>
    decreases s.len(),
{
    if s.len() == 0 {
        Seq::empty()
    } else if s.len() >= 11 && s.take(11) == cert_marker() {
        key_marker() + replace_cert(s.skip(11))
    } else {
        seq![s[0]] + replace_cert(s.drop_first())
    }
}

/// Whether the certificate marker stands at position `i` of `s`.
fn matches_cert_at(s: &str, n: usize, i: usize) -> (r: bool)
    requires
        i <= n,
        n == s@.len(),
    ensures
        r == (i + 11 <= s@.len() && s@.subrange(i as int, i as int + 11) == cert_marker()),
{
    proof {
        reveal_strlit("CERTIFICATE");
    }
    if n - i < 11 {
        return false;
    }
    let marker = "CERTIFICATE";
    let mut k: usize = 0;
    while k < 11
        invariant
            k <= 11,
            i + 11 <= n,
            n == s@.len(),
            marker@ == cert_marker(),
            marker@.len() == 11,
            forall|j: int| 0 <= j < k ==> s@[i + j] == cert_marker()[j],
        decreases 11 - k,
    {
        if s.get_char(i + k) != marker.get_char(k) {
            assert(s@.subrange(i as int, i as int + 11)[k as int] != cert_marker()[k as int]);
            return false;
        }
        k += 1;
    }
    proof {
        assert(s@.subrange(i as int, i as int + 11) =~= cert_marker());
    }
    true
}

/// Normalize the configured key text: every occurrence of the certificate
/// marker becomes the public-key marker, and all other characters are kept
/// in order.
pub fn normalize_cert_key(s: &str) -> (r: String)
    ensures
        r@ == replace_cert(s@),
{
    proof {
        reveal_strlit("CERTIFICATE");
        reveal_strlit("PUBLIC KEY");
    }
    let n = s.unicode_len();
    let mut out = String::new();
    let mut i: usize = 0;
    proof {
        assert(s@.skip(0) =~= s@);
        assert(out@ + replace_cert(s@) =~= replace_cert(s@));
    }
    while i < n
        invariant
            i <= n,
            n == s@.len(),
            replace_cert(s@) == out@ + replace_cert(s@.skip(i as int)),
        decreases n - i,
    {
        let ghost rest = s@.skip(i as int);
        if matches_cert_at(s, n, i) {
            proof {
                assert(rest.len() >= 11);
                assert(rest.take(11) =~= s@.subrange(i as int, i as int + 11));
                assert(rest.skip(11) =~= s@.skip(i as int + 11));
                assert(replace_cert(rest) == key_marker() + replace_cert(s@.skip(i as int + 11)));
            }
            let ghost out0 = out@;
            out.append("PUBLIC KEY");
            proof {
                assert(out@ =~= out0 + key_marker());
                assert(out0 + (key_marker() + replace_cert(s@.skip(i as int + 11))) =~= (out0
                    + key_marker()) + replace_cert(s@.skip(i as int + 11)));
            }
            i += 11;
        } else {
            proof {
                if rest.len() >= 11 {
                    assert(rest.take(11) =~= s@.subrange(i as int, i as int + 11));
                }
                assert(rest[0] == s@[i as int]);
                assert(rest.drop_first() =~= s@.skip(i as int + 1));
                assert(replace_cert(rest) == seq![s@[i as int]] + replace_cert(
                    s@.skip(i as int + 1),
                ));
            }
            let c = s.get_char(i);
            let ghost out0 = out@;
            push_char(&mut out, c);
            proof {
                assert(out@ =~= out0 + seq![s@[i as int]]);
                assert(out0 + (seq![s@[i as int]] + replace_cert(s@.skip(i as int + 1))) =~= (out0
                    + seq![s@[i as int]]) + replace_cert(s@.skip(i as int + 1)));
            }
            i += 1;
        }
    }
    proof {
        assert(s@.skip(n as int) =~= Seq::<char>::empty());
        assert(out@ + Seq::<char>::empty() =~= out@);
    }
    out
}

impl Config {
    /// The configuration with its key text normalized from certificate form
    /// to public-key form; every other field is kept.
    pub fn with_public_key(self) -> (c: Config)
        ensures
            c.jwt_pub_key@ == replace_cert(self.jwt_pub_key@),
            c.address@ == self.address@,
            c.port == self.port,
            c.endpoint@ == self.endpoint@,
            c.client_id@ == self.client_id@,
            c.client_secret@ == self.client_secret@,
            c.org_name@ == self.org_name@,
            c.app_name == self.app_name,
            c.permission_name@ == self.permission_name@,
    {
        let key = normalize_cert_key(self.jwt_pub_key.as_str());
        Config { jwt_pub_key: key, ..self }
    }
}

} // verus!
