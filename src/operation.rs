//! Operation records: one JSON shape whose `type_i` discriminator selects
//! the payload, behind one accessor surface.
use vstd::prelude::*;
use crate::asset::Flag;
use crate::error::{DecodeError, Field};
use crate::json::{field_value, lookup, read_bool, read_str, read_u32, read_u8, req_bool, req_str, req_u32, req_u8, Json};

verus! {

/// The discriminator of a set-options operation.
pub const SET_OPTIONS: u32 = 5;

/// An optional flags field: absent or `null` is no flags; otherwise an object
/// with the two boolean flags.
pub open spec fn opt_flag(fields: Seq<(String, Json)>, f: Field) -> Result<Option<Flag>, DecodeError> {
    match field_value(fields, f.key_of()) {
        None => Ok(None),
        Some(Json::Null) => Ok(None),
        Some(Json::Object(inner)) => {
            let a = req_bool(inner@, Field::AuthRequired);
            let b = req_bool(inner@, Field::AuthRevocable);
            if a is Err {
                Err(a->Err_0)
            } else if b is Err {
                Err(b->Err_0)
            } else {
                Ok(Some(Flag { auth_required: a->Ok_0, auth_revocable: b->Ok_0 }))
            }
        },
        Some(_) => Err(DecodeError::Invalid(f)),
    }
}

/// Reads an optional flags field.
fn read_flag(fields: &Vec<(String, Json)>, f: Field) -> (r: Result<Option<Flag>, DecodeError>)
    ensures
        r == opt_flag(fields@, f),
{
    match lookup(fields, f) {
        None => Ok(None),
        Some(Json::Null) => Ok(None),
        Some(Json::Object(inner)) => {
            let a = match read_bool(inner, Field::AuthRequired) {
                Ok(a) => a,
                Err(e) => return Err(e),
            };
            let b = match read_bool(inner, Field::AuthRevocable) {
                Ok(b) => b,
                Err(e) => return Err(e),
            };
            Ok(Some(Flag::new(a, b)))
        },
        Some(_) => Err(DecodeError::Invalid(f)),
    }
}

/// The set-options operation: sets or clears account flags, adds a signer,
/// sets the master key weight, the thresholds and the home domain.
#[derive(Debug)]
pub struct SetOptions {
    signer_key: String,
    signer_weight: u8,
    master_key_weight: u8,
    low_threshold: u32,
    med_threshold: u32,
    high_threshold: u32,
    home_domain: String,
    set_flags: Option<Flag>,
    clear_flags: Option<Flag>,
}

/// What a set-options operation holds, as plain values.
pub struct SetOptionsView {
    pub signer_key: Seq<char>,
    pub signer_weight: u8,
    pub master_key_weight: u8,
    pub low_threshold: u32,
    pub med_threshold: u32,
    pub high_threshold: u32,
    pub home_domain: Seq<char>,
    pub set_flags: Option<Flag>,
    pub clear_flags: Option<Flag>,
}

impl View for SetOptions {
    type V = SetOptionsView;

    closed spec fn view(&self) -> SetOptionsView {
        SetOptionsView {
            signer_key: self.signer_key@,
            signer_weight: self.signer_weight,
            master_key_weight: self.master_key_weight,
            low_threshold: self.low_threshold,
            med_threshold: self.med_threshold,
            high_threshold: self.high_threshold,
            home_domain: self.home_domain@,
            set_flags: self.set_flags,
            clear_flags: self.clear_flags,
        }
    }
}

impl SetOptions {
    /// Creates a set-options operation.
    pub fn new(
        signer_key: String,
        signer_weight: u8,
        master_key_weight: u8,
        low_threshold: u32,
        med_threshold: u32,
        high_threshold: u32,
        home_domain: String,
        set_flags: Option<Flag>,
        clear_flags: Option<Flag>,
    ) -> (r: SetOptions)
        ensures
            r@ == (SetOptionsView {
                signer_key: signer_key@,
                signer_weight,
                master_key_weight,
                low_threshold,
                med_threshold,
                high_threshold,
                home_domain: home_domain@,
                set_flags,
                clear_flags,
            }),
    {
        SetOptions {
            signer_key,
            signer_weight,
            master_key_weight,
            low_threshold,
            med_threshold,
            high_threshold,
            home_domain,
            set_flags,
            clear_flags,
        }
    }

    /// The public key of the new signer.
    pub fn signer_key(&self) -> (r: &String)
        ensures
            r@ == self@.signer_key,
    {
        &self.signer_key
    }

    /// The weight of the new signer.
    pub fn signer_weight(&self) -> (r: u8)
        ensures
            r == self@.signer_weight,
    {
        self.signer_weight
    }

    /// The weight of the master key.
    pub fn master_key_weight(&self) -> (r: u8)
        ensures
            r == self@.master_key_weight,
    {
        self.master_key_weight
    }

    /// The sum weight for the low threshold.
    pub fn low_threshold(&self) -> (r: u32)
        ensures
            r == self@.low_threshold,
    {
        self.low_threshold
    }

    /// The sum weight for the medium threshold.
    pub fn med_threshold(&self) -> (r: u32)
        ensures
            r == self@.med_threshold,
    {
        self.med_threshold
    }

    /// The sum weight for the high threshold.
    pub fn high_threshold(&self) -> (r: u32)
        ensures
            r == self@.high_threshold,
    {
        self.high_threshold
    }

    /// The home domain used for reverse federation lookup.
    pub fn home_domain(&self) -> (r: &String)
        ensures
            r@ == self@.home_domain,
    {
        &self.home_domain
    }

    /// The flags that this operation sets, if any.
    pub fn set_flags(&self) -> (r: Option<Flag>)
        ensures
            r == self@.set_flags,
    {
        self.set_flags
    }

    /// The flags that this operation clears, if any.
    pub fn clear_flags(&self) -> (r: Option<Flag>)
        ensures
            r == self@.clear_flags,
    {
        self.clear_flags
    }
}

/// The payload of a set-options record: required fields in order, then the
/// optional flags; the first field that fails decides the error.
pub open spec fn parse_set_options(fs: Seq<(String, Json)>) -> Result<SetOptionsView, DecodeError> {
    let signer_key = req_str(fs, Field::SignerKey);
    let signer_weight = req_u8(fs, Field::SignerWeight);
    let master_key_weight = req_u8(fs, Field::MasterKeyWeight);
    let low_threshold = req_u32(fs, Field::LowThreshold);
    let med_threshold = req_u32(fs, Field::MedThreshold);
    let high_threshold = req_u32(fs, Field::HighThreshold);
    let home_domain = req_str(fs, Field::HomeDomain);
    let set_flags = opt_flag(fs, Field::SetFlags);
    let clear_flags = opt_flag(fs, Field::ClearFlags);
    if signer_key is Err {
        Err(signer_key->Err_0)
    } else if signer_weight is Err {
        Err(signer_weight->Err_0)
    } else if master_key_weight is Err {
        Err(master_key_weight->Err_0)
    } else if low_threshold is Err {
        Err(low_threshold->Err_0)
    } else if med_threshold is Err {
        Err(med_threshold->Err_0)
    } else if high_threshold is Err {
        Err(high_threshold->Err_0)
    } else if home_domain is Err {
        Err(home_domain->Err_0)
    } else if set_flags is Err {
        Err(set_flags->Err_0)
    } else if clear_flags is Err {
        Err(clear_flags->Err_0)
    } else {
        Ok(
            SetOptionsView {
                signer_key: signer_key->Ok_0,
                signer_weight: signer_weight->Ok_0,
                master_key_weight: master_key_weight->Ok_0,
                low_threshold: low_threshold->Ok_0,
                med_threshold: med_threshold->Ok_0,
                high_threshold: high_threshold->Ok_0,
                home_domain: home_domain->Ok_0,
                set_flags: set_flags->Ok_0,
                clear_flags: clear_flags->Ok_0,
            },
        )
    }
}

/// Decodes the payload of a set-options record.
fn decode_set_options(fs: &Vec<(String, Json)>) -> (r: Result<SetOptions, DecodeError>)
    ensures
        match r {
            Ok(so) => parse_set_options(fs@) == Ok::<SetOptionsView, DecodeError>(so@),
            Err(e) => parse_set_options(fs@) == Err::<SetOptionsView, DecodeError>(e),
        },
{
    let signer_key = match read_str(fs, Field::SignerKey) {
        Ok(v) => v,
        Err(e) => return Err(e),
    };
    let signer_weight = match read_u8(fs, Field::SignerWeight) {
        Ok(v) => v,
        Err(e) => return Err(e),
    };
    let master_key_weight = match read_u8(fs, Field::MasterKeyWeight) {
        Ok(v) => v,
        Err(e) => return Err(e),
    };
    let low_threshold = match read_u32(fs, Field::LowThreshold) {
        Ok(v) => v,
        Err(e) => return Err(e),
    };
    let med_threshold = match read_u32(fs, Field::MedThreshold) {
        Ok(v) => v,
        Err(e) => return Err(e),
    };
    let high_threshold = match read_u32(fs, Field::HighThreshold) {
        Ok(v) => v,
        Err(e) => return Err(e),
    };
    let home_domain = match read_str(fs, Field::HomeDomain) {
        Ok(v) => v,
        Err(e) => return Err(e),
    };
    let set_flags = match read_flag(fs, Field::SetFlags) {
        Ok(v) => v,
        Err(e) => return Err(e),
    };
    let clear_flags = match read_flag(fs, Field::ClearFlags) {
        Ok(v) => v,
        Err(e) => return Err(e),
    };
    Ok(
        SetOptions::new(
            signer_key,
            signer_weight,
            master_key_weight,
            low_threshold,
            med_threshold,
            high_threshold,
            home_domain,
            set_flags,
            clear_flags,
        ),
    )
}

/// An operation whose discriminator is not one this library knows: the raw
/// discriminator and the record's fields as they came.
#[derive(Debug)]
pub struct UnknownOperation {
    type_i: u32,
    fields: Vec<(String, Json)>,
}

/// What an unknown operation holds.
pub struct UnknownView {
    pub type_i: u32,
    pub fields: Seq<(String, Json)>,
}

impl View for UnknownOperation {
    type V = UnknownView;

    closed spec fn view(&self) -> UnknownView {
        UnknownView { type_i: self.type_i, fields: self.fields@ }
    }
}

impl UnknownOperation {
    /// The raw discriminator.
    pub fn type_i(&self) -> (r: u32)
        ensures
            r == self@.type_i,
    {
        self.type_i
    }

    /// The record's fields, in the order they came.
    pub fn fields(&self) -> (r: &Vec<(String, Json)>)
        ensures
            r@ == self@.fields,
    {
        &self.fields
    }
}

/// The payload of an operation, one variant per discriminator.
#[derive(Debug)]
pub enum OperationDetail {
    SetOptions(SetOptions),
    Unknown(UnknownOperation),
}

/// The payload of an operation, as plain values.
pub enum DetailView {
    SetOptions(SetOptionsView),
    Unknown(UnknownView),
}

impl View for OperationDetail {
    type V = DetailView;

    open spec fn view(&self) -> DetailView {
        match self {
            OperationDetail::SetOptions(so) => DetailView::SetOptions(so@),
            OperationDetail::Unknown(u) => DetailView::Unknown(u@),
        }
    }
}

/// An operation record: its discriminator and its payload.
#[derive(Debug)]
pub struct Operation {
    type_i: u32,
    detail: OperationDetail,
}

/// What an operation holds, as plain values.
pub struct OperationView {
    pub type_i: u32,
    pub detail: DetailView,
}

impl View for Operation {
    type V = OperationView;

    closed spec fn view(&self) -> OperationView {
        OperationView { type_i: self.type_i, detail: self.detail@ }
    }
}

/// The operation a JSON value decodes to: an object whose `type_i` is a
/// 32-bit discriminator; set options for its own code, the unknown variant
/// with the raw fields for any other.
pub open spec fn parse_operation(j: Json) -> Result<OperationView, DecodeError> {
    match j {
        Json::Object(fs) => {
            let t = req_u32(fs@, Field::TypeI);
            if t is Err {
                Err(t->Err_0)
            } else if t->Ok_0 == SET_OPTIONS {
                match parse_set_options(fs@) {
                    Ok(so) => Ok(
                        OperationView { type_i: SET_OPTIONS, detail: DetailView::SetOptions(so) },
                    ),
                    Err(e) => Err(e),
                }
            } else {
                Ok(
                    OperationView {
                        type_i: t->Ok_0,
                        detail: DetailView::Unknown(UnknownView { type_i: t->Ok_0, fields: fs@ }),
                    },
                )
            }
        },
        _ => Err(DecodeError::NotAnObject),
    }
}

/// Whether `r` is what decoding the record `j` gives.
pub open spec fn decodes_to(j: Json, r: Result<Operation, DecodeError>) -> bool {
    match r {
        Ok(op) => parse_operation(j) == Ok::<OperationView, DecodeError>(op@),
        Err(e) => parse_operation(j) == Err::<OperationView, DecodeError>(e),
    }
}

/// How a list of records treats an entry that does not decode.
#[derive(Clone, Copy, Debug, PartialEq, Eq, Structural)]
pub enum ListPolicy {
    /// The whole list fails at the first entry that does not decode.
    FailFast,
    /// Each entry is reported on its own; the list never fails.
    Tolerant,
}

/// The first entry of a list that did not decode, and why.
#[derive(Clone, Copy, Debug, PartialEq, Eq, Structural)]
pub struct ListError {
    pub index: usize,
    pub error: DecodeError,
}

impl Operation {
    /// Decodes a list of operation records, entry by entry, in order. Under
    /// `Tolerant` the result holds each entry's own outcome; under `FailFast`
    /// the list fails with the index and error of the first entry that does
    /// not decode.
    pub fn from_json_list(records: Vec<Json>, policy: ListPolicy) -> (r: Result<
        Vec<Result<Operation, DecodeError>>,
        ListError,
    >)
        ensures
            policy == ListPolicy::Tolerant ==> r is Ok,
            r matches Ok(v) ==> v@.len() == records@.len() && forall|i: int|
                0 <= i < v@.len() ==> #[trigger] decodes_to(records@[i], v@[i]),
            policy == ListPolicy::FailFast ==> (r is Ok <==> forall|i: int|
                0 <= i < records@.len() ==> #[trigger] parse_operation(records@[i]) is Ok),
            r matches Err(e) ==> policy == ListPolicy::FailFast && e.index < records@.len()
                && parse_operation(records@[e.index as int]) == Err::<OperationView, DecodeError>(
                e.error,
            ) && forall|i: int| 0 <= i < e.index ==> #[trigger] parse_operation(records@[i]) is Ok,
    {
        let ghost orig = records@;
        let n = records.len();
        let mut rest = records;
        let mut out: Vec<Result<Operation, DecodeError>> = Vec::new();
        let mut k: usize = 0;
        while k < n
            invariant
                n == orig.len(),
                orig == records@,
                k <= n,
                rest@ == orig.subrange(k as int, n as int),
                out@.len() == k,
                forall|i: int| 0 <= i < k ==> #[trigger] decodes_to(orig[i], out@[i]),
                policy == ListPolicy::FailFast ==> forall|i: int|
                    0 <= i < k ==> #[trigger] parse_operation(orig[i]) is Ok,
            decreases n - k,
        {
            let j = rest.remove(0);
            assert(j == orig[k as int]);
            let r = Operation::from_json(j);
            match &r {
                Err(e) => {
                    if policy == ListPolicy::FailFast {
                        assert(parse_operation(orig[k as int]) == Err::<OperationView, DecodeError>(*e));
                        return Err(ListError { index: k, error: *e });
                    }
                },
                Ok(_) => {},
            }
            out.push(r);
            assert(rest@ =~= orig.subrange(k + 1, n as int));
            k = k + 1;
        }
        Ok(out)
    }

    /// Decodes an operation record: reads the discriminator first, then the
    /// fields of the variant it selects.
    pub fn from_json(j: Json) -> (r: Result<Operation, DecodeError>)
        ensures
            decodes_to(j, r),
    {
        match j {
            Json::Object(fs) => {
                let t = match read_u32(&fs, Field::TypeI) {
                    Ok(t) => t,
                    Err(e) => return Err(e),
                };
                if t == SET_OPTIONS {
                    match decode_set_options(&fs) {
                        Ok(so) => Ok(
                            Operation { type_i: SET_OPTIONS, detail: OperationDetail::SetOptions(so) },
                        ),
                        Err(e) => Err(e),
                    }
                } else {
                    Ok(
                        Operation {
                            type_i: t,
                            detail: OperationDetail::Unknown(UnknownOperation { type_i: t, fields: fs }),
                        },
                    )
                }
            },
            _ => Err(DecodeError::NotAnObject),
        }
    }

    /// The discriminator.
    pub fn type_i(&self) -> (r: u32)
        ensures
            r == self@.type_i,
    {
        self.type_i
    }

    /// The payload, for the caller to match on.
    pub fn detail(&self) -> (r: &OperationDetail)
        ensures
            r@ == self@.detail,
    {
        &self.detail
    }

    /// Whether this is a set-options operation.
    pub fn is_set_options(&self) -> (r: bool)
        ensures
            r == (self@.detail is SetOptions),
    {
        match &self.detail {
            OperationDetail::SetOptions(_) => true,
            _ => false,
        }
    }

    /// Whether the discriminator is one this library does not know.
    pub fn is_unknown(&self) -> (r: bool)
        ensures
            r == (self@.detail is Unknown),
    {
        match &self.detail {
            OperationDetail::Unknown(_) => true,
            _ => false,
        }
    }
}

/// The fields that a set-options record must have.
pub open spec fn is_required(f: Field) -> bool {
    match f {
        Field::SignerKey | Field::SignerWeight | Field::MasterKeyWeight | Field::LowThreshold
        | Field::MedThreshold | Field::HighThreshold | Field::HomeDomain => true,
        _ => false,
    }
}

/// Whether a required field of a set-options record is present and has its
/// shape and range.
pub open spec fn field_ok(fs: Seq<(String, Json)>, f: Field) -> bool {
    match f {
        Field::SignerKey | Field::HomeDomain => req_str(fs, f) is Ok,
        Field::SignerWeight | Field::MasterKeyWeight => req_u8(fs, f) is Ok,
        Field::LowThreshold | Field::MedThreshold | Field::HighThreshold => req_u32(fs, f) is Ok,
        _ => true,
    }
}

/// The value a record holds under a field's key.
pub open spec fn raw(fs: Seq<(String, Json)>, f: Field) -> Option<Json> {
    field_value(fs, f.key_of())
}

/// Whether a record holds the integer `n` under a field's key.
pub open spec fn holds_int(fs: Seq<(String, Json)>, f: Field, n: int) -> bool {
    raw(fs, f) matches Some(Json::Number(m)) && m == n
}

/// Whether a record holds the string `s` under a field's key.
pub open spec fn holds_str(fs: Seq<(String, Json)>, f: Field, s: Seq<char>) -> bool {
    raw(fs, f) matches Some(Json::Str(t)) && t@ == s
}

/// The set-options payload that a record decodes to.
pub open spec fn decoded_set_options(j: Json) -> SetOptionsView {
    parse_operation(j)->Ok_0.detail->SetOptions_0
}

/// A set-options record whose required fields are all present and
/// well-formed, and whose flags are absent or well-formed, decodes to a
/// set-options operation, and every accessor gives back the value the record
/// holds.
pub proof fn lemma_set_options_fields_kept(j: Json)
    requires
        j is Object,
        raw(j->Object_0@, Field::TypeI) == Some(Json::Number(SET_OPTIONS as i128)),
        forall|g: Field| is_required(g) ==> #[trigger] field_ok(j->Object_0@, g),
        opt_flag(j->Object_0@, Field::SetFlags) is Ok,
        opt_flag(j->Object_0@, Field::ClearFlags) is Ok,
    ensures
        parse_operation(j) is Ok,
        parse_operation(j)->Ok_0.type_i == SET_OPTIONS,
        parse_operation(j)->Ok_0.detail is SetOptions,
        holds_str(j->Object_0@, Field::SignerKey, decoded_set_options(j).signer_key),
        holds_int(j->Object_0@, Field::SignerWeight, decoded_set_options(j).signer_weight as int),
        holds_int(j->Object_0@, Field::MasterKeyWeight, decoded_set_options(j).master_key_weight as int),
        holds_int(j->Object_0@, Field::LowThreshold, decoded_set_options(j).low_threshold as int),
        holds_int(j->Object_0@, Field::MedThreshold, decoded_set_options(j).med_threshold as int),
        holds_int(j->Object_0@, Field::HighThreshold, decoded_set_options(j).high_threshold as int),
        holds_str(j->Object_0@, Field::HomeDomain, decoded_set_options(j).home_domain),
        decoded_set_options(j).set_flags == opt_flag(j->Object_0@, Field::SetFlags)->Ok_0,
        decoded_set_options(j).clear_flags == opt_flag(j->Object_0@, Field::ClearFlags)->Ok_0,
{
    let fs = j->Object_0@;
    assert(field_ok(fs, Field::SignerKey));
    assert(field_ok(fs, Field::SignerWeight));
    assert(field_ok(fs, Field::MasterKeyWeight));
    assert(field_ok(fs, Field::LowThreshold));
    assert(field_ok(fs, Field::MedThreshold));
    assert(field_ok(fs, Field::HighThreshold));
    assert(field_ok(fs, Field::HomeDomain));
}

/// A record whose discriminator is a 32-bit code other than set options
/// decodes, without error, to the unknown variant, which keeps the raw
/// discriminator and the record's fields.
pub proof fn lemma_unknown_discriminator(j: Json, t: u32)
    requires
        j is Object,
        raw(j->Object_0@, Field::TypeI) == Some(Json::Number(t as i128)),
        t != SET_OPTIONS,
    ensures
        parse_operation(j) == Ok::<OperationView, DecodeError>(
            OperationView {
                type_i: t,
                detail: DetailView::Unknown(UnknownView { type_i: t, fields: j->Object_0@ }),
            },
        ),
{
}

/// A set-options record that lacks exactly one required field, the others
/// being well-formed, fails to decode with an error naming that field.
pub proof fn lemma_missing_field_reported(j: Json, f: Field)
    requires
        j is Object,
        raw(j->Object_0@, Field::TypeI) == Some(Json::Number(SET_OPTIONS as i128)),
        is_required(f),
        raw(j->Object_0@, f) is None,
        forall|g: Field| is_required(g) && g != f ==> #[trigger] field_ok(j->Object_0@, g),
    ensures
        parse_operation(j) == Err::<OperationView, DecodeError>(DecodeError::Missing(f)),
{
    let fs = j->Object_0@;
    if f != Field::SignerKey {
        assert(field_ok(fs, Field::SignerKey));
    }
    if f != Field::SignerWeight {
        assert(field_ok(fs, Field::SignerWeight));
    }
    if f != Field::MasterKeyWeight {
        assert(field_ok(fs, Field::MasterKeyWeight));
    }
    if f != Field::LowThreshold {
        assert(field_ok(fs, Field::LowThreshold));
    }
    if f != Field::MedThreshold {
        assert(field_ok(fs, Field::MedThreshold));
    }
    if f != Field::HighThreshold {
        assert(field_ok(fs, Field::HighThreshold));
    }
    if f != Field::HomeDomain {
        assert(field_ok(fs, Field::HomeDomain));
    }
}

} // verus!
