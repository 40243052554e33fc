//! Credential resolution. Two credential categories — an inline-JSON value
//! and a key-file path — each have one canonical configuration name and an
//! ordered list of deprecated aliases. Aliases are scanned in declared
//! precedence order; the first set value of a category wins, a later
//! disagreeing alias only emits a conflict warning, and every deprecated
//! alias that supplies a value emits a migration warning. The canonical
//! inline value arrives base64-encoded; a value that fails to decode is
//! warned about and treated as absent.

use vstd::prelude::*;
use vstd::string::StringExecFns;
use vstd::utf8::{decode_utf8, valid_utf8};
use base64::Engine;

verus! {

/// The canonical configuration name of the inline-JSON credential.
pub open spec fn json_canonical_name() -> Seq<char> {
    "CUBESTORE_GCP_CREDENTIALS"@
}

/// The canonical configuration name of the key-file credential.
pub open spec fn path_canonical_name() -> Seq<char> {
    "CUBESTORE_GCP_KEY_FILE"@
}

/// What the standard base64 decode returns for a given input, or nothing when
/// the input is not valid base64.
pub uninterp spec fn base64_decoded(s: Seq<char>) -> Option<Seq<u8>>;

/// Relies on base64's standard-alphabet decode: whether it succeeds, and what
/// bytes it yields, depend on the input characters alone.
#[verifier::external_body]
fn base64_decode(s: &str) -> (r: Option<Vec<u8>>)
    ensures
        r is Some <==> base64_decoded(s@) is Some,
        r matches Some(v) ==> base64_decoded(s@) matches Some(b) && v@ == b,
{
    base64::engine::general_purpose::STANDARD.decode(s).ok()
}

/// Relies on std's String::from_utf8: it succeeds exactly on valid UTF-8 and
/// yields its decoding.
#[verifier::external_body]
fn utf8_to_string(bytes: Vec<u8>) -> (r: Option<String>)
    ensures
        r is Some <==> valid_utf8(bytes@),
        r matches Some(s) ==> s@ == decode_utf8(bytes@),
{
    String::from_utf8(bytes).ok()
}

/// The inline credential recovered from its base64 transport encoding, or
/// nothing when the encoding or the UTF-8 inside it is invalid.
pub open spec fn decoded_credentials(s: Seq<char>) -> Option<Seq<char>> {
    match base64_decoded(s) {
        None => None,
        Some(b) => if valid_utf8(b) {
            Some(decode_utf8(b))
        } else {
            None
        },
    }
}

/// Decodes the canonical inline credential from base64 to text; `None` when
/// either decoding step fails.
pub fn decode_credentials(creds_base64: &str) -> (r: Option<String>)
    ensures
        r is Some <==> decoded_credentials(creds_base64@) is Some,
        r matches Some(s) ==> decoded_credentials(creds_base64@) matches Some(d) && s@ == d,
{
    match base64_decode(creds_base64) {
        None => None,
        Some(bytes) => utf8_to_string(bytes),
    }
}

/// One deprecated configuration name and the category it feeds.
pub struct CredentialAlias {
    /// The configuration name to look up.
    pub name: String,
    /// `true` for the key-file category, `false` for the inline-JSON one.
    pub is_path: bool,
}

/// Spec-level image of an alias.
pub struct AliasV {
    pub name: Seq<char>,
    pub is_path: bool,
}

impl View for CredentialAlias {
    type V = AliasV;

    open spec fn view(&self) -> AliasV {
        AliasV { name: self.name@, is_path: self.is_path }
    }
}

/// A warning emitted during resolution.
pub enum CredentialWarning {
    /// The canonical inline value failed to decode; it is treated as absent.
    DecodeFailure { name: String },
    /// A deprecated alias supplied the value; `canonical` names its
    /// replacement.
    Deprecated { name: String, canonical: String },
    /// A later alias disagreed with the value already selected; the earlier
    /// one, named `prev_name`, is kept.
    Conflict { name: String, prev_name: String },
}

/// Spec-level image of a warning.
pub enum WarningV {
    DecodeFailure { name: Seq<char> },
    Deprecated { name: Seq<char>, canonical: Seq<char> },
    Conflict { name: Seq<char>, prev_name: Seq<char> },
}

impl View for CredentialWarning {
    type V = WarningV;

    open spec fn view(&self) -> WarningV {
        match self {
            CredentialWarning::DecodeFailure { name } => WarningV::DecodeFailure { name: name@ },
            CredentialWarning::Deprecated { name, canonical } => WarningV::Deprecated {
                name: name@,
                canonical: canonical@,
            },
            CredentialWarning::Conflict { name, prev_name } => WarningV::Conflict {
                name: name@,
                prev_name: prev_name@,
            },
        }
    }
}

/// A selected value and the configuration name that supplied it.
pub struct SlotV {
    pub value: Seq<char>,
    pub source: Seq<char>,
}

/// State of the scan: the slot of each category and the warnings so far.
#[verifier::ext_equal]
pub struct ScanStateV {
    pub json: Option<SlotV>,
    pub path: Option<SlotV>,
    pub warnings: Seq<WarningV>,
}

/// Spec-level image of a warning list.
pub open spec fn warnings_view(s: Seq<CredentialWarning>) -> Seq<WarningV> {
    s.map_values(|w: CredentialWarning| w@)
}

/// Spec-level image of an alias list.
pub open spec fn aliases_view(s: Seq<CredentialAlias>) -> Seq<AliasV> {
    s.map_values(|a: CredentialAlias| a@)
}

/// The slot a category selects.
pub open spec fn slot_of(st: ScanStateV, is_path: bool) -> Option<SlotV> {
    if is_path {
        st.path
    } else {
        st.json
    }
}

/// The canonical name of a category.
pub open spec fn canonical_of(is_path: bool) -> Seq<char> {
    if is_path {
        path_canonical_name()
    } else {
        json_canonical_name()
    }
}

/// How one set slot absorbs one alias value: an empty slot adopts it, a full
/// one keeps what it has.
pub open spec fn slot_after(slot: Option<SlotV>, name: Seq<char>, value: Seq<char>) -> Option<
    SlotV,
> {
    match slot {
        None => Some(SlotV { value, source: name }),
        Some(_) => slot,
    }
}

/// The warnings one alias value adds: a migration warning when adopted, a
/// conflict warning when it disagrees with the slot, nothing when it agrees.
pub open spec fn warnings_added(
    slot: Option<SlotV>,
    name: Seq<char>,
    canonical: Seq<char>,
    value: Seq<char>,
) -> Seq<WarningV> {
    match slot {
        None => seq![WarningV::Deprecated { name, canonical }],
        Some(s) => if s.value != value {
            seq![WarningV::Conflict { name, prev_name: s.source }]
        } else {
            Seq::<WarningV>::empty()
        },
    }
}

/// One scan step: an unset name changes nothing; a set one feeds its
/// category's slot.
pub open spec fn scan_step(st: ScanStateV, a: AliasV, value: Option<Seq<char>>) -> ScanStateV {
    match value {
        None => st,
        Some(v) => if a.is_path {
            ScanStateV {
                json: st.json,
                path: slot_after(st.path, a.name, v),
                warnings: st.warnings + warnings_added(st.path, a.name, canonical_of(true), v),
            }
        } else {
            ScanStateV {
                json: slot_after(st.json, a.name, v),
                path: st.path,
                warnings: st.warnings + warnings_added(st.json, a.name, canonical_of(false), v),
            }
        },
    }
}

/// Feeds one alias value into one category's slot: an empty slot adopts the
/// value with a migration warning, a disagreeing full slot keeps its value
/// and warns of the conflict, an agreeing one changes nothing.
fn apply_alias(slot: Option<(String, String)>, name: &String, canonical: &str, value: &String) -> (r:
    (Option<(String, String)>, Option<CredentialWarning>))
    ensures
        slot_view(r.0) == slot_after(slot_view(slot), name@, value@),
        (match r.1 {
            Some(w) => seq![w@],
            None => Seq::<WarningV>::empty(),
        }) == warnings_added(slot_view(slot), name@, canonical@, value@),
{
    match &slot {
        None => {
            let w = CredentialWarning::Deprecated {
                name: name.clone(),
                canonical: canonical.to_owned(),
            };
            proof {
                assert(warnings_added(slot_view(slot), name@, canonical@, value@) =~= seq![w@]);
            }
            (Some((value.clone(), name.clone())), Some(w))
        },
        Some(p) => {
            if !(p.0 == *value) {
                let w = CredentialWarning::Conflict { name: name.clone(), prev_name: p.1.clone() };
                proof {
                    assert(warnings_added(slot_view(slot), name@, canonical@, value@)
                        =~= seq![w@]);
                }
                (slot, Some(w))
            } else {
                (slot, None)
            }
        },
    }
}

/// The whole scan, folding the aliases in declared order over the state left
/// by the canonical names.
pub open spec fn scan(
    init: ScanStateV,
    aliases: Seq<AliasV>,
    values: Seq<Option<Seq<char>>>,
) -> ScanStateV
    decreases aliases.len(),
{
    if aliases.len() == 0 {
        init
    } else {
        scan_step(
            scan(init, aliases.drop_last(), values.drop_last()),
            aliases.last(),
            values.last(),
        )
    }
}

/// The state the canonical names leave before any deprecated alias is read:
/// the inline value decoded (or warned about and dropped), the key-file value
/// taken as it is.
pub open spec fn initial_state(
    canonical_json: Option<Seq<char>>,
    canonical_path: Option<Seq<char>>,
) -> ScanStateV {
    let path = match canonical_path {
        None => None,
        Some(v) => Some(SlotV { value: v, source: path_canonical_name() }),
    };
    match canonical_json {
        None => ScanStateV { json: None, path, warnings: Seq::empty() },
        Some(c) => match decoded_credentials(c) {
            Some(s) => ScanStateV {
                json: Some(SlotV { value: s, source: json_canonical_name() }),
                path,
                warnings: Seq::empty(),
            },
            None => ScanStateV {
                json: None,
                path,
                warnings: seq![WarningV::DecodeFailure { name: json_canonical_name() }],
            },
        },
    }
}

/// What a resolution selected: the two canonical slots and every warning, in
/// the order it was emitted.
pub struct CredentialResolution {
    /// The inline-JSON credential, already decoded when the canonical name
    /// supplied it.
    pub credentials_json: Option<String>,
    /// The key-file path credential.
    pub key_file: Option<String>,
    /// The decode, migration and conflict warnings, in scan order.
    pub warnings: Vec<CredentialWarning>,
}

/// The value a slot carries.
pub open spec fn slot_value(slot: Option<SlotV>) -> Option<Seq<char>> {
    match slot {
        None => None,
        Some(s) => Some(s.value),
    }
}

/// Spec-level image of an in-progress exec slot.
pub open spec fn slot_view(s: Option<(String, String)>) -> Option<SlotV> {
    match s {
        None => None,
        Some(p) => Some(SlotV { value: p.0@, source: p.1@ }),
    }
}

/// Resolves the two credential slots from the canonical values and the
/// deprecated alias values, first-wins, with every warning the scan emits.
/// `values[i]` is the value found under `aliases[i]`.
pub fn resolve_credentials(
    canonical_json: Option<String>,
    canonical_path: Option<String>,
    aliases: &Vec<CredentialAlias>,
    values: &Vec<Option<String>>,
) -> (r: CredentialResolution)
    requires
        aliases@.len() == values@.len(),
    ensures
        ({
            let fin = scan(
                initial_state(canonical_json.deep_view(), canonical_path.deep_view()),
                aliases_view(aliases@),
                values.deep_view(),
            );
            &&& r.credentials_json.deep_view() == slot_value(fin.json)
            &&& r.key_file.deep_view() == slot_value(fin.path)
            &&& warnings_view(r.warnings@) == fin.warnings
        }),
{
    let ghost init = initial_state(canonical_json.deep_view(), canonical_path.deep_view());
    let ghost av = aliases_view(aliases@);
    let ghost vv = values.deep_view();

    let mut warnings: Vec<CredentialWarning> = Vec::new();
    let mut json_slot: Option<(String, String)> = None;
    match &canonical_json {
        None => {},
        Some(c) => {
            match decode_credentials(c.as_str()) {
                Some(s) => {
                    json_slot = Some((s, "CUBESTORE_GCP_CREDENTIALS".to_owned()));
                },
                None => {
                    warnings.push(
                        CredentialWarning::DecodeFailure {
                            name: "CUBESTORE_GCP_CREDENTIALS".to_owned(),
                        },
                    );
                },
            }
        },
    }
    let mut path_slot: Option<(String, String)> = match &canonical_path {
        None => None,
        Some(v) => Some((v.clone(), "CUBESTORE_GCP_KEY_FILE".to_owned())),
    };
    proof {
        assert(warnings_view(warnings@) =~= init.warnings);
        assert(slot_view(json_slot) == init.json);
        assert(slot_view(path_slot) == init.path);
    }

    let n: usize = aliases.len();
    let mut i: usize = 0;
    proof {
        assert(av.take(0) =~= Seq::<AliasV>::empty());
        assert(vv.take(0) =~= Seq::<Option<Seq<char>>>::empty());
    }
    while i < n
        invariant
            i <= n,
            n == aliases@.len(),
            aliases@.len() == values@.len(),
            av == aliases_view(aliases@),
            vv == values.deep_view(),
            init == initial_state(canonical_json.deep_view(), canonical_path.deep_view()),
            scan(init, av.take(i as int), vv.take(i as int)) == (ScanStateV {
                json: slot_view(json_slot),
                path: slot_view(path_slot),
                warnings: warnings_view(warnings@),
            }),
        decreases n - i,
    {
        let ghost st = scan(init, av.take(i as int), vv.take(i as int));
        proof {
            assert(av.take(i + 1).drop_last() =~= av.take(i as int));
            assert(vv.take(i + 1).drop_last() =~= vv.take(i as int));
            assert(av.take(i + 1).last() == av[i as int]);
            assert(vv.take(i + 1).last() == vv[i as int]);
            assert(vv[i as int] == values@[i as int].deep_view());
        }
        let a = &aliases[i];
        proof {
            assert(av[i as int] == aliases@[i as int]@);
        }
        match &values[i] {
            None => {
                proof {
                    assert(vv[i as int] is None);
                    assert(scan(init, av.take(i + 1), vv.take(i + 1)) =~= st);
                }
            },
            Some(v) => {
                proof {
                    assert(vv[i as int] == Some(v@));
                }
                let ghost old_map = warnings_view(warnings@);
                if a.is_path {
                    let stepped = apply_alias(path_slot, &a.name, "CUBESTORE_GCP_KEY_FILE", v);
                    path_slot = stepped.0;
                    match stepped.1 {
                        Some(w) => {
                            let ghost wv = w@;
                            warnings.push(w);
                            proof {
                                assert(warnings_view(warnings@) =~= old_map + seq![wv]);
                            }
                        },
                        None => {
                            proof {
                                assert(warnings_view(warnings@) =~= old_map
                                    + Seq::<WarningV>::empty());
                            }
                        },
                    }
                } else {
                    let stepped = apply_alias(json_slot, &a.name, "CUBESTORE_GCP_CREDENTIALS", v);
                    json_slot = stepped.0;
                    match stepped.1 {
                        Some(w) => {
                            let ghost wv = w@;
                            warnings.push(w);
                            proof {
                                assert(warnings_view(warnings@) =~= old_map + seq![wv]);
                            }
                        },
                        None => {
                            proof {
                                assert(warnings_view(warnings@) =~= old_map
                                    + Seq::<WarningV>::empty());
                            }
                        },
                    }
                }
                proof {
                    assert(scan(init, av.take(i + 1), vv.take(i + 1)) =~= (ScanStateV {
                        json: slot_view(json_slot),
                        path: slot_view(path_slot),
                        warnings: warnings_view(warnings@),
                    }));
                }
            },
        }
        i = i + 1;
    }
    proof {
        assert(av.take(n as int) =~= av);
        assert(vv.take(n as int) =~= vv);
    }
    let credentials_json = match json_slot {
        None => None,
        Some(p) => Some(p.0),
    };
    let key_file = match path_slot {
        None => None,
        Some(p) => Some(p.0),
    };
    CredentialResolution { credentials_json, key_file, warnings }
}

/// The deprecated aliases in their declared precedence order: each deprecated
/// name is checked first under the namespaced prefix, then bare.
pub fn deprecated_aliases() -> (r: Vec<CredentialAlias>)
    ensures
        r@.len() == 8,
        r@[0]@.name == "CUBESTORE_GCP_SERVICE_ACCOUNT"@ && r@[0]@.is_path,
        r@[1]@.name == "SERVICE_ACCOUNT"@ && r@[1]@.is_path,
        r@[2]@.name == "CUBESTORE_GCP_GOOGLE_APPLICATION_CREDENTIALS"@ && r@[2]@.is_path,
        r@[3]@.name == "GOOGLE_APPLICATION_CREDENTIALS"@ && r@[3]@.is_path,
        r@[4]@.name == "CUBESTORE_GCP_SERVICE_ACCOUNT_JSON"@ && !r@[4]@.is_path,
        r@[5]@.name == "SERVICE_ACCOUNT_JSON"@ && !r@[5]@.is_path,
        r@[6]@.name == "CUBESTORE_GCP_GOOGLE_APPLICATION_CREDENTIALS_JSON"@ && !r@[6]@.is_path,
        r@[7]@.name == "GOOGLE_APPLICATION_CREDENTIALS_JSON"@ && !r@[7]@.is_path,
{
    let mut r: Vec<CredentialAlias> = Vec::new();
    r.push(CredentialAlias { name: "CUBESTORE_GCP_SERVICE_ACCOUNT".to_owned(), is_path: true });
    r.push(CredentialAlias { name: "SERVICE_ACCOUNT".to_owned(), is_path: true });
    r.push(
        CredentialAlias {
            name: "CUBESTORE_GCP_GOOGLE_APPLICATION_CREDENTIALS".to_owned(),
            is_path: true,
        },
    );
    r.push(CredentialAlias { name: "GOOGLE_APPLICATION_CREDENTIALS".to_owned(), is_path: true });
    r.push(
        CredentialAlias { name: "CUBESTORE_GCP_SERVICE_ACCOUNT_JSON".to_owned(), is_path: false },
    );
    r.push(CredentialAlias { name: "SERVICE_ACCOUNT_JSON".to_owned(), is_path: false });
    r.push(
        CredentialAlias {
            name: "CUBESTORE_GCP_GOOGLE_APPLICATION_CREDENTIALS_JSON".to_owned(),
            is_path: false,
        },
    );
    r.push(
        CredentialAlias { name: "GOOGLE_APPLICATION_CREDENTIALS_JSON".to_owned(), is_path: false },
    );
    r
}

/// A set slot is never overwritten: whatever the deprecated aliases hold, a
/// category whose canonical name already supplied a value keeps exactly that
/// value and source. First wins.
pub proof fn lemma_first_wins(
    init: ScanStateV,
    aliases: Seq<AliasV>,
    values: Seq<Option<Seq<char>>>,
    is_path: bool,
)
    requires
        aliases.len() == values.len(),
        slot_of(init, is_path) is Some,
    ensures
        slot_of(scan(init, aliases, values), is_path) == slot_of(init, is_path),
    decreases aliases.len(),
{
    if aliases.len() > 0 {
        lemma_first_wins(init, aliases.drop_last(), values.drop_last(), is_path);
    }
}

/// Appending warnings loses none.
proof fn lemma_contains_append(s: Seq<WarningV>, t: Seq<WarningV>, w: WarningV)
    requires
        s.contains(w),
    ensures
        (s + t).contains(w),
{
    let j = choose|j: int| 0 <= j < s.len() && s[j] == w;
    assert((s + t)[j] == w);
}

/// A scan step never drops a warning already emitted.
proof fn lemma_step_keeps_warnings(st: ScanStateV, a: AliasV, value: Option<Seq<char>>, w: WarningV)
    requires
        st.warnings.contains(w),
    ensures
        scan_step(st, a, value).warnings.contains(w),
{
    match value {
        None => {},
        Some(v) => {
            if a.is_path {
                lemma_contains_append(
                    st.warnings,
                    warnings_added(st.path, a.name, canonical_of(true), v),
                    w,
                );
            } else {
                lemma_contains_append(
                    st.warnings,
                    warnings_added(st.json, a.name, canonical_of(false), v),
                    w,
                );
            }
        },
    }
}

/// Credential precedence: when a category's canonical name already supplied a
/// value and a deprecated alias of the same category holds a different one,
/// the canonical value is kept (first wins) and a conflict warning naming
/// both sources is emitted.
pub proof fn lemma_credential_precedence(
    init: ScanStateV,
    aliases: Seq<AliasV>,
    values: Seq<Option<Seq<char>>>,
    i: int,
    is_path: bool,
)
    requires
        aliases.len() == values.len(),
        0 <= i < aliases.len(),
        aliases[i].is_path == is_path,
        slot_of(init, is_path) is Some,
        values[i] is Some,
        values[i].unwrap() != slot_of(init, is_path).unwrap().value,
    ensures
        slot_of(scan(init, aliases, values), is_path) == slot_of(init, is_path),
        scan(init, aliases, values).warnings.contains(
            WarningV::Conflict {
                name: aliases[i].name,
                prev_name: slot_of(init, is_path).unwrap().source,
            },
        ),
    decreases aliases.len(),
{
    lemma_first_wins(init, aliases, values, is_path);
    let prev = scan(init, aliases.drop_last(), values.drop_last());
    let w = WarningV::Conflict {
        name: aliases[i].name,
        prev_name: slot_of(init, is_path).unwrap().source,
    };
    if i < aliases.len() - 1 {
        lemma_credential_precedence(init, aliases.drop_last(), values.drop_last(), i, is_path);
        lemma_step_keeps_warnings(prev, aliases.last(), values.last(), w);
    } else {
        lemma_first_wins(init, aliases.drop_last(), values.drop_last(), is_path);
        let added = if is_path {
            warnings_added(prev.path, aliases.last().name, canonical_of(true), values.last().unwrap())
        } else {
            warnings_added(prev.json, aliases.last().name, canonical_of(false), values.last().unwrap())
        };
        assert(added == seq![w]);
        assert((prev.warnings + seq![w])[prev.warnings.len() as int] == w);
    }
}

} // verus!
