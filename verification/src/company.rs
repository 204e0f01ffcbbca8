//! Company domain types: the organizational units that group users and
//! apps, and the apps with their generated API keys.

use vstd::prelude::*;
use vstd::string::StringExecFns;

use crate::hashing::{hex_of, sha256, sha256_of, sha256_hex, to_hex};
use crate::ids::{fresh_id, now_millis};
use crate::text::{
    ascii_to_string, bytes_eq, lemma_split_acc_bytes, lower_byte, lower_bytes, lower_vec,
    split_all, split_exec, utf8_bytes,
};

verus! {

/// The slug form of one byte: lower-cased ASCII letters and digits are
/// kept, everything else becomes a dash.
pub open spec fn slug_byte(b: u8) -> u8 {
    let lb = lower_byte(b);
    if (97 <= lb && lb <= 122) || (48 <= lb && lb <= 57) {
        lb
    } else {
        45
    }
}

/// The dash-joined non-empty segments, scanning from segment `i`.
pub open spec fn join_nonempty(segs: Seq<Seq<u8>>, i: int) -> Seq<u8>
    decreases segs.len() - i,
{
    if i < 0 || i >= segs.len() {
        Seq::empty()
    } else if segs[i].len() == 0 {
        join_nonempty(segs, i + 1)
    } else {
        segs[i] + (if join_nonempty(segs, i + 1).len() > 0 {
            seq![45u8] + join_nonempty(segs, i + 1)
        } else {
            Seq::<u8>::empty()
        })
    }
}

/// The URL slug of a name: every byte is lower-cased or replaced by a
/// dash, and the non-empty dash-separated runs are joined with single
/// dashes.
pub open spec fn slug_spec(s: Seq<u8>) -> Seq<u8> {
    join_nonempty(split_all(s.map(|_i: int, b: u8| slug_byte(b)), 45), 0)
}

/// A company that owns apps.
#[derive(Debug, Clone)]
pub struct Company {
    /// Unique identifier.
    pub id: u128,
    /// Company name.
    pub name: String,
    /// URL-friendly slug.
    pub slug: String,
    /// Optional description.
    pub description: Option<String>,
    /// Creation time, milliseconds since the Unix epoch.
    pub created_at: i64,
    /// Last update time, milliseconds since the Unix epoch.
    pub updated_at: i64,
}

impl Company {
    /// Create a company.
    pub fn new(name: String, slug: String, description: Option<String>) -> (r: Company)
        ensures
            r.name == name,
            r.slug == slug,
            r.description == description,
    {
        let now = now_millis();
        Company { id: fresh_id(), name, slug, description, created_at: now, updated_at: now }
    }

    /// Generate a slug from a name.
    #[verifier::loop_isolation(false)]
    pub fn slugify(name: &str) -> (r: String)
        ensures
            r@ == slug_spec(utf8_bytes(name@)).map(|_i: int, b: u8| b as char),
    {
        let raw = name.as_bytes();
        let mut mapped: Vec<u8> = Vec::new();
        let mut i: usize = 0;
        while i < raw.len()
            invariant
                i <= raw@.len(),
                mapped@.len() == i,
                forall|k: int| 0 <= k < i ==> mapped@[k] == slug_byte(raw@[k]),
                forall|k: int| 0 <= k < i ==> mapped@[k] < 128,
            decreases raw@.len() - i,
        {
            let b = raw[i];
            let lb: u8 = if 65 <= b && b <= 90 {
                b + 32
            } else {
                b
            };
            let sb: u8 = if (97 <= lb && lb <= 122) || (48 <= lb && lb <= 57) {
                lb
            } else {
                45
            };
            mapped.push(sb);
            i = i + 1;
        }
        proof {
            assert(mapped@ =~= raw@.map(|_i: int, b: u8| slug_byte(b)));
            lemma_split_acc_bytes(mapped@, 45, 0, Seq::empty(), |b: u8| b < 128);
        }

        let segs = split_exec(mapped.as_slice(), 45);
        let mut out: Vec<u8> = Vec::new();
        let mut first: bool = true;
        let mut j: usize = 0;
        proof {
            assert(segs.deep_view() == split_all(mapped@, 45));
        }
        while j < segs.len()
            invariant
                j <= segs@.len(),
                segs.deep_view() == split_all(mapped@, 45),
                forall|a: int, b: int|
                    0 <= a < segs.deep_view().len() && 0 <= b < segs.deep_view()[a].len()
                        ==> (#[trigger] segs.deep_view()[a][b]) < 128,
                forall|k: int| 0 <= k < out@.len() ==> out@[k] < 128,
                first ==> out@.len() == 0 && join_nonempty(segs.deep_view(), 0) == join_nonempty(
                    segs.deep_view(),
                    j as int,
                ),
                !first ==> join_nonempty(segs.deep_view(), 0) == out@ + (if join_nonempty(
                    segs.deep_view(),
                    j as int,
                ).len() > 0 {
                    seq![45u8] + join_nonempty(segs.deep_view(), j as int)
                } else {
                    Seq::<u8>::empty()
                }),
            decreases segs@.len() - j,
        {
            proof {
                assert(segs.deep_view()[j as int] =~= segs@[j as int]@);
            }
            let seg = &segs[j];
            if seg.len() > 0 {
                if !first {
                    out.push(45);
                }
                let mut k: usize = 0;
                let ghost out_before = out@;
                while k < seg.len()
                    invariant
                        k <= seg@.len(),
                        seg@ == segs.deep_view()[j as int],
                        forall|a: int, b: int|
                            0 <= a < segs.deep_view().len() && 0 <= b < segs.deep_view()[a].len()
                                ==> (#[trigger] segs.deep_view()[a][b]) < 128,
                        forall|m: int| 0 <= m < out_before.len() ==> out_before[m] < 128,
                        out@ == out_before + seg@.subrange(0, k as int),
                        forall|m: int| 0 <= m < out@.len() ==> out@[m] < 128,
                    decreases seg@.len() - k,
                {
                    proof {
                        assert(seg@[k as int] == segs.deep_view()[j as int][k as int]);
                        assert(seg@[k as int] < 128);
                    }
                    out.push(seg[k]);
                    proof {
                        assert(out@ =~= out_before + seg@.subrange(0, k + 1));
                    }
                    k = k + 1;
                }
                proof {
                    assert(seg@.subrange(0, seg@.len() as int) == seg@);
                    assert(join_nonempty(segs.deep_view(), j as int) == segs.deep_view()[j as int]
                        + (if join_nonempty(segs.deep_view(), j + 1).len() > 0 {
                        seq![45u8] + join_nonempty(segs.deep_view(), j + 1)
                    } else {
                        Seq::<u8>::empty()
                    }));
                }
                first = false;
            } else {
                proof {
                    assert(join_nonempty(segs.deep_view(), j as int) == join_nonempty(
                        segs.deep_view(),
                        j + 1,
                    ));
                }
            }
            j = j + 1;
        }
        proof {
            assert(join_nonempty(segs.deep_view(), segs.deep_view().len() as int)
                =~= Seq::<u8>::empty());
            assert(out@ =~= slug_spec(utf8_bytes(name@)));
        }
        ascii_to_string(out)
    }
}

/// Role within a company.
#[derive(Clone, Copy, PartialEq, Eq, Structural, Debug)]
pub enum CompanyRole {
    /// Full access to company settings and members.
    Owner,
    /// Can manage apps and view data.
    Admin,
    /// Can view data and manage review tasks.
    Member,
    /// Read-only access.
    Viewer,
}

impl CompanyRole {
    /// The stable lower-case name of this role.
    pub open spec fn label_spec(self) -> Seq<char> {
        match self {
            CompanyRole::Owner => "owner"@,
            CompanyRole::Admin => "admin"@,
            CompanyRole::Member => "member"@,
            CompanyRole::Viewer => "viewer"@,
        }
    }

    /// The stable lower-case name of this role.
    pub fn label(&self) -> (r: String)
        ensures
            r@ == self.label_spec(),
    {
        match self {
            CompanyRole::Owner => String::from_str("owner"),
            CompanyRole::Admin => String::from_str("admin"),
            CompanyRole::Member => String::from_str("member"),
            CompanyRole::Viewer => String::from_str("viewer"),
        }
    }

    /// Parse a role name, case-insensitively.
    pub fn parse(s: &str) -> (r: Result<CompanyRole, String>)
        ensures
            match r {
                Ok(role) => lower_bytes(utf8_bytes(s@)) == utf8_bytes(role.label_spec()),
                Err(e) => {
                    &&& lower_bytes(utf8_bytes(s@)) != utf8_bytes("owner"@)
                    &&& lower_bytes(utf8_bytes(s@)) != utf8_bytes("admin"@)
                    &&& lower_bytes(utf8_bytes(s@)) != utf8_bytes("member"@)
                    &&& lower_bytes(utf8_bytes(s@)) != utf8_bytes("viewer"@)
                    &&& e@ == "Unknown role: "@ + s@
                },
            },
    {
        let low = lower_vec(s.as_bytes());
        if bytes_eq(low.as_slice(), "owner".as_bytes()) {
            Ok(CompanyRole::Owner)
        } else if bytes_eq(low.as_slice(), "admin".as_bytes()) {
            Ok(CompanyRole::Admin)
        } else if bytes_eq(low.as_slice(), "member".as_bytes()) {
            Ok(CompanyRole::Member)
        } else if bytes_eq(low.as_slice(), "viewer".as_bytes()) {
            Ok(CompanyRole::Viewer)
        } else {
            let mut msg = String::from_str("Unknown role: ");
            msg.append(s);
            Err(msg)
        }
    }
}

impl core::str::FromStr for CompanyRole {
    type Err = String;

    fn from_str(s: &str) -> Result<CompanyRole, String> {
        CompanyRole::parse(s)
    }
}

/// A user's membership in a company.
#[derive(Debug, Clone)]
pub struct CompanyMember {
    /// Unique identifier.
    pub id: u128,
    /// Company identifier.
    pub company_id: u128,
    /// User identifier.
    pub user_id: String,
    /// User email, for display.
    pub email: String,
    /// Role in the company.
    pub role: CompanyRole,
    /// Creation time, milliseconds since the Unix epoch.
    pub created_at: i64,
}

impl CompanyMember {
    /// Create a membership.
    pub fn new(company_id: u128, user_id: String, email: String, role: CompanyRole) -> (r:
        CompanyMember)
        ensures
            r.company_id == company_id,
            r.user_id == user_id,
            r.email == email,
            r.role == role,
    {
        CompanyMember { id: fresh_id(), company_id, user_id, email, role, created_at: now_millis() }
    }
}

/// Status of an app.
#[derive(Clone, Copy, PartialEq, Eq, Structural, Debug)]
pub enum AppStatus {
    /// Active: the app can make requests.
    Active,
    /// Paused: requests are refused for now.
    Paused,
    /// Revoked: the app is permanently disabled.
    Revoked,
}

impl AppStatus {
    /// The stable lower-case name of this status.
    pub open spec fn label_spec(self) -> Seq<char> {
        match self {
            AppStatus::Active => "active"@,
            AppStatus::Paused => "paused"@,
            AppStatus::Revoked => "revoked"@,
        }
    }

    /// The stable lower-case name of this status.
    pub fn label(&self) -> (r: String)
        ensures
            r@ == self.label_spec(),
    {
        match self {
            AppStatus::Active => String::from_str("active"),
            AppStatus::Paused => String::from_str("paused"),
            AppStatus::Revoked => String::from_str("revoked"),
        }
    }

    /// Parse a status name, case-insensitively.
    pub fn parse(s: &str) -> (r: Result<AppStatus, String>)
        ensures
            match r {
                Ok(st) => lower_bytes(utf8_bytes(s@)) == utf8_bytes(st.label_spec()),
                Err(e) => {
                    &&& lower_bytes(utf8_bytes(s@)) != utf8_bytes("active"@)
                    &&& lower_bytes(utf8_bytes(s@)) != utf8_bytes("paused"@)
                    &&& lower_bytes(utf8_bytes(s@)) != utf8_bytes("revoked"@)
                    &&& e@ == "Unknown status: "@ + s@
                },
            },
    {
        let low = lower_vec(s.as_bytes());
        if bytes_eq(low.as_slice(), "active".as_bytes()) {
            Ok(AppStatus::Active)
        } else if bytes_eq(low.as_slice(), "paused".as_bytes()) {
            Ok(AppStatus::Paused)
        } else if bytes_eq(low.as_slice(), "revoked".as_bytes()) {
            Ok(AppStatus::Revoked)
        } else {
            let mut msg = String::from_str("Unknown status: ");
            msg.append(s);
            Err(msg)
        }
    }
}

impl core::str::FromStr for AppStatus {
    type Err = String;

    fn from_str(s: &str) -> Result<AppStatus, String> {
        AppStatus::parse(s)
    }
}

/// Relies on std's RandomState hasher: `n` bytes of process-local
/// entropy. The result is random; only its length is promised.
#[verifier::external_body]
pub fn rand_bytes(n: usize) -> (r: Vec<u8>)
    ensures
        r@.len() == n,
{
    let state = std::collections::hash_map::RandomState::new();
    let mut bytes: Vec<u8> = Vec::with_capacity(n);
    let mut counter: u64 = 0;
    while bytes.len() < n {
        let mut hasher = std::hash::BuildHasher::build_hasher(&state);
        std::hash::Hasher::write_u64(&mut hasher, counter);
        let random = std::hash::Hasher::finish(&hasher).to_le_bytes();
        for b in random.iter() {
            if bytes.len() < n {
                bytes.push(*b);
            }
        }
        counter += 1;
    }
    bytes
}

/// An app or agent that belongs to a company.
#[derive(Debug, Clone)]
pub struct App {
    /// Unique identifier.
    pub id: u128,
    /// The company this app belongs to.
    pub company_id: u128,
    /// App name.
    pub name: String,
    /// Optional description.
    pub description: Option<String>,
    /// The API key; shown once on creation.
    pub api_key: Option<String>,
    /// The key's printable prefix, for identification.
    pub api_key_prefix: String,
    /// Current status.
    pub status: AppStatus,
    /// Rate limit, requests per minute.
    pub rate_limit: u32,
    /// Creation time, milliseconds since the Unix epoch.
    pub created_at: i64,
    /// Last update time, milliseconds since the Unix epoch.
    pub updated_at: i64,
    /// Last time the app made a request.
    pub last_used_at: Option<i64>,
}

impl App {
    /// Create an app with a freshly generated API key; the key's prefix
    /// is its first twelve characters.
    pub fn new(company_id: u128, name: String, description: Option<String>, rate_limit: u32) -> (r:
        App)
        ensures
            r.company_id == company_id,
            r.name == name,
            r.description == description,
            r.rate_limit == rate_limit,
            r.status == AppStatus::Active,
            r.last_used_at is None,
            r.api_key matches Some(k) && k@.len() == 58 && k@.subrange(0, 10) == "sk_shield_"@
                && r.api_key_prefix@ == k@.subrange(0, 12),
    {
        let keys = App::generate_api_key();
        let now = now_millis();
        App {
            id: fresh_id(),
            company_id,
            name,
            description,
            api_key: Some(keys.0),
            api_key_prefix: keys.1,
            status: AppStatus::Active,
            rate_limit,
            created_at: now,
            updated_at: now,
            last_used_at: None,
        }
    }

    /// Generate an API key and its twelve-character prefix: the fixed
    /// tag followed by the hex digest of fresh entropy and the clock.
    fn generate_api_key() -> (r: (String, String))
        ensures
            r.0@.len() == 58,
            r.0@.subrange(0, 10) == "sk_shield_"@,
            r.1@ == r.0@.subrange(0, 12),
    {
        let mut input = rand_bytes(32);
        let now = now_millis();
        // Stir the clock in, least significant byte first.
        let mut t: u64 = if now < 0 {
            0
        } else {
            now as u64
        };
        let mut b: usize = 0;
        while b < 8
            invariant
                b <= 8,
            decreases 8 - b,
        {
            input.push((t % 256) as u8);
            t = t / 256;
            b = b + 1;
        }
        let digest = sha256(input.as_slice());
        let body = to_hex(&digest.as_slice()[0..24]);
        let head = to_hex(&digest.as_slice()[0..1]);

        let mut key = String::from_str("sk_shield_");
        key.append(body.as_str());
        let mut prefix = String::from_str("sk_shield_");
        prefix.append(head.as_str());
        proof {
            reveal_strlit("sk_shield_");
            lemma_hex_len(digest@.subrange(0, 24));
            lemma_hex_len(digest@.subrange(0, 1));
            assert(digest@.subrange(0, 24).drop_first() =~= digest@.subrange(1, 24));
            assert(digest@.subrange(0, 24)[0] == digest@.subrange(0, 1)[0]);
            assert(hex_of(digest@.subrange(0, 1)) =~= hex_of(digest@.subrange(0, 24)).take(2));
            assert(key@.subrange(0, 10) =~= "sk_shield_"@);
            assert(prefix@ =~= key@.subrange(0, 12));
        }
        (key, prefix)
    }

    /// The digest under which an API key is stored.
    pub fn hash_api_key(key: &str) -> (r: String)
        ensures
            r@ == hex_of(sha256_of(utf8_bytes(key@))),
    {
        sha256_hex(key.as_bytes())
    }
}

/// Hex rendering doubles the length.
pub proof fn lemma_hex_len(s: Seq<u8>)
    ensures
        hex_of(s).len() == 2 * s.len(),
    decreases s.len(),
{
    if s.len() > 0 {
        lemma_hex_len(s.drop_first());
    }
}

} // verus!
