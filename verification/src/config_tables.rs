//! Configuration table rows, read field by field.
//!
//! Every schema has a `from_fvs` that reads a row into the schema's struct.
//! The fields are read in the order in which the struct lists them, and the
//! first field that is missing or does not parse decides the error.

pub use crate::codec::{FieldValueError, FieldValueErrorView};
use crate::row::FieldValues;
use crate::service_path::ServicePath;
use crate::text::{
    bool_error_text, bool_from_str, comma_pieces, parse_bool, parse_u16, parse_u64, split_commas,
    str_eq, to_string_lossy, u16_error_text, u64_error_text, unsigned_from_str, utf8_lossy,
};
use vstd::prelude::*;
use vstd::string::StringSliceAdditionalSpecFns;

verus! {

/// A type whose values are written as text in a field of a row.
pub trait ParseValue: Sized {
    /// What a value stands for in contracts.
    type Model;

    /// What `self` stands for.
    spec fn model(&self) -> Self::Model;

    /// The value that the text `s` is parsed as, if it is one.
    spec fn from_str_spec(s: Seq<char>) -> Option<Self::Model>;

    /// The text of the error for a text that is not parsed as a value.
    spec fn error_text(s: Seq<char>) -> Seq<char>;

    /// Parses a value from `s`; else gives the text of the error.
    fn from_str(s: &str) -> (r: Result<Self, String>)
        ensures
            match r {
                Ok(v) => Self::from_str_spec(s@) == Some(v.model()),
                Err(e) => Self::from_str_spec(s@) is None && e@ == Self::error_text(s@),
            },
    ;
}

impl ParseValue for String {
    type Model = Seq<char>;

    open spec fn model(&self) -> Seq<char> {
        self@
    }

    open spec fn from_str_spec(s: Seq<char>) -> Option<Seq<char>> {
        Some(s)
    }

    open spec fn error_text(s: Seq<char>) -> Seq<char> {
        Seq::empty()
    }

    fn from_str(s: &str) -> (r: Result<Self, String>) {
        Ok(s.to_owned())
    }
}

impl ParseValue for u64 {
    type Model = u64;

    open spec fn model(&self) -> u64 {
        *self
    }

    open spec fn from_str_spec(s: Seq<char>) -> Option<u64> {
        match unsigned_from_str(s, u64::MAX as nat) {
            Some(n) => Some(n as u64),
            None => None,
        }
    }

    open spec fn error_text(s: Seq<char>) -> Seq<char> {
        u64_error_text(s)
    }

    fn from_str(s: &str) -> (r: Result<Self, String>) {
        parse_u64(s)
    }
}

impl ParseValue for u16 {
    type Model = u16;

    open spec fn model(&self) -> u16 {
        *self
    }

    open spec fn from_str_spec(s: Seq<char>) -> Option<u16> {
        match unsigned_from_str(s, u16::MAX as nat) {
            Some(n) => Some(n as u16),
            None => None,
        }
    }

    open spec fn error_text(s: Seq<char>) -> Seq<char> {
        u16_error_text(s)
    }

    fn from_str(s: &str) -> (r: Result<Self, String>) {
        parse_u16(s)
    }
}

impl ParseValue for bool {
    type Model = bool;

    open spec fn model(&self) -> bool {
        *self
    }

    open spec fn from_str_spec(s: Seq<char>) -> Option<bool> {
        bool_from_str(s)
    }

    open spec fn error_text(s: Seq<char>) -> Seq<char> {
        bool_error_text(s)
    }

    fn from_str(s: &str) -> (r: Result<Self, String>) {
        parse_bool(s)
    }
}

/// The text of the error for a text that names no variant of an enum.
pub open spec fn variant_not_found() -> Seq<char> {
    "Matching variant not found"@
}

/// What reading the text `value` of the field `field` as a `T` gives.
pub open spec fn parse_val_spec<T: ParseValue>(field: Seq<char>, value: Seq<char>) -> Result<
    T::Model,
    FieldValueErrorView,
> {
    match T::from_str_spec(value) {
        Some(v) => Ok(v),
        None => Err(
            FieldValueErrorView::Invalid { field, data: value, error: T::error_text(value) },
        ),
    }
}

/// What reading the field `field` of `row` as a `T` gives: the field has to
/// be there, and its text has to parse.
pub open spec fn parse_fv_spec<T: ParseValue>(row: Map<Seq<char>, Seq<u8>>, field: Seq<char>) -> Result<
    T::Model,
    FieldValueErrorView,
> {
    if row.contains_key(field) {
        parse_val_spec::<T>(field, utf8_lossy(row[field]))
    } else {
        Err(FieldValueErrorView::Missing { field })
    }
}

/// What reading the field `field` of `row` as an optional `T` gives: a field
/// that is absent, empty or `none` is no value; any other text has to parse.
pub open spec fn parse_fv_option_spec<T: ParseValue>(
    row: Map<Seq<char>, Seq<u8>>,
    field: Seq<char>,
) -> Result<Option<T::Model>, FieldValueErrorView> {
    if !row.contains_key(field) || row[field].len() == 0 || row[field] == "none".spec_bytes() {
        Ok(None)
    } else {
        match parse_val_spec::<T>(field, utf8_lossy(row[field])) {
            Ok(v) => Ok(Some(v)),
            Err(e) => Err(e),
        }
    }
}

/// What reading the texts `pieces` of the field `field` as a list of `T`
/// gives: every piece has to parse, and the first that does not decides the
/// error.
pub open spec fn parse_list_spec<T: ParseValue>(field: Seq<char>, pieces: Seq<Seq<char>>) -> Result<
    Seq<T::Model>,
    FieldValueErrorView,
>
    decreases pieces.len(),
{
    if pieces.len() == 0 {
        Ok(Seq::empty())
    } else {
        match parse_list_spec::<T>(field, pieces.drop_last()) {
            Err(e) => Err(e),
            Ok(values) => match parse_val_spec::<T>(field, pieces.last()) {
                Ok(v) => Ok(values.push(v)),
                Err(e) => Err(e),
            },
        }
    }
}

/// The models of a list of values, in order.
pub open spec fn models<T: ParseValue>(values: Seq<T>) -> Seq<T::Model> {
    values.map_values(|v: T| v.model())
}

/// Parses a `T` from the text `value` of the field `field`.
pub fn parse_val<T: ParseValue>(field: &'static str, value: &str) -> (r: Result<T, FieldValueError>)
    ensures
        match r {
            Ok(v) => parse_val_spec::<T>(field@, value@) == Ok::<T::Model, FieldValueErrorView>(
                v.model(),
            ),
            Err(e) => parse_val_spec::<T>(field@, value@) == Err::<T::Model, FieldValueErrorView>(
                e@,
            ),
        },
{
    match T::from_str(value) {
        Ok(t) => Ok(t),
        Err(error) => Err(FieldValueError::Invalid { field, data: value.to_owned(), error }),
    }
}

/// Parses a `T` from the field `field` of `fvs`.
///
/// Fails if `field` is not present in `fvs`, or if its text does not parse.
pub fn parse_fv<T: ParseValue>(fvs: &FieldValues, field: &'static str) -> (r: Result<
    T,
    FieldValueError,
>)
    ensures
        match r {
            Ok(v) => parse_fv_spec::<T>(fvs@, field@) == Ok::<T::Model, FieldValueErrorView>(
                v.model(),
            ),
            Err(e) => parse_fv_spec::<T>(fvs@, field@) == Err::<T::Model, FieldValueErrorView>(e@),
        },
{
    match fvs.get(field) {
        Some(val_cxx) => {
            let val_str = to_string_lossy(val_cxx);
            parse_val(field, val_str.as_str())
        },
        None => Err(FieldValueError::Missing { field }),
    }
}

/// Whether `bytes` are the bytes of the text `text`.
fn bytes_are(bytes: &Vec<u8>, text: &str) -> (same: bool)
    ensures
        same == (bytes@ == text.spec_bytes()),
{
    let other = text.as_bytes();
    if bytes.len() != other.len() {
        return false;
    }
    let mut i: usize = 0;
    while i < bytes.len()
        invariant
            bytes.len() == other.len(),
            other@ == text.spec_bytes(),
            i <= bytes.len(),
            forall|j: int| 0 <= j < i ==> bytes@[j] == other@[j],
        decreases bytes.len() - i,
    {
        if bytes[i] != other[i] {
            return false;
        }
        i += 1;
    }
    assert(bytes@ =~= other@);
    true
}

/// Parses an optional `T` from the field `field` of `fvs`.
///
/// No value if `field` is not present in `fvs`, or if it is empty or
/// `none`. Fails if any other text does not parse.
pub fn parse_fv_option<T: ParseValue>(fvs: &FieldValues, field: &'static str) -> (r: Result<
    Option<T>,
    FieldValueError,
>)
    ensures
        match r {
            Ok(Some(v)) => parse_fv_option_spec::<T>(fvs@, field@) == Ok::<
                Option<T::Model>,
                FieldValueErrorView,
            >(Some(v.model())),
            Ok(None) => parse_fv_option_spec::<T>(fvs@, field@) == Ok::<
                Option<T::Model>,
                FieldValueErrorView,
            >(None),
            Err(e) => parse_fv_option_spec::<T>(fvs@, field@) == Err::<
                Option<T::Model>,
                FieldValueErrorView,
            >(e@),
        },
{
    match fvs.get(field) {
        Some(val_cxx) => {
            if val_cxx.len() == 0 || bytes_are(val_cxx, "none") {
                Ok(None)
            } else {
                let val_str = to_string_lossy(val_cxx);
                match parse_val(field, val_str.as_str()) {
                    Ok(val) => Ok(Some(val)),
                    Err(e) => Err(e),
                }
            }
        },
        None => Ok(None),
    }
}

/// What reading the field `field` of `row` as a comma-separated list of `T`
/// gives: the field has to be there, and every part of its text between the
/// commas has to parse.
pub open spec fn parse_fv_list_spec<T: ParseValue>(
    row: Map<Seq<char>, Seq<u8>>,
    field: Seq<char>,
) -> Result<Seq<T::Model>, FieldValueErrorView> {
    if row.contains_key(field) {
        parse_list_spec::<T>(field, comma_pieces(utf8_lossy(row[field])))
    } else {
        Err(FieldValueErrorView::Missing { field })
    }
}

/// Parses a list of `T` from the comma-separated values in the field
/// `field` of `fvs`.
///
/// An empty text is one empty value. Fails if `field` is not present in
/// `fvs`, or if any value does not parse.
pub fn parse_fv_comma_separated_list<T: ParseValue>(fvs: &FieldValues, field: &'static str) -> (r:
    Result<Vec<T>, FieldValueError>)
    ensures
        match r {
            Ok(values) => parse_fv_list_spec::<T>(fvs@, field@) == Ok::<
                Seq<T::Model>,
                FieldValueErrorView,
            >(models(values@)),
            Err(e) => parse_fv_list_spec::<T>(fvs@, field@) == Err::<
                Seq<T::Model>,
                FieldValueErrorView,
            >(e@),
        },
{
    match fvs.get(field) {
        Some(val_cxx) => {
            let val_str = to_string_lossy(val_cxx);
            let pieces = split_commas(val_str.as_str());
            let ghost texts = pieces.deep_view();
            let mut values: Vec<T> = Vec::new();
            let mut i: usize = 0;
            proof {
                assert(texts.take(0) =~= Seq::empty());
                assert(models(values@) =~= Seq::empty());
            }
            while i < pieces.len()
                invariant
                    i <= pieces.len(),
                    texts == pieces.deep_view(),
                    texts.len() == pieces.len(),
                    fvs@.contains_key(field@),
                    texts == comma_pieces(utf8_lossy(fvs@[field@])),
                    parse_list_spec::<T>(field@, texts.take(i as int)) == Ok::<
                        Seq<T::Model>,
                        FieldValueErrorView,
                    >(models(values@)),
                decreases pieces.len() - i,
            {
                proof {
                    assert(texts[i as int] == pieces@[i as int]@);
                    assert(texts.take(i + 1).drop_last() =~= texts.take(i as int));
                    assert(texts.take(i + 1).last() == texts[i as int]);
                }
                let ghost before = values@;
                match parse_val::<T>(field, pieces[i].as_str()) {
                    Ok(v) => {
                        values.push(v);
                        proof {
                            assert(models(values@) =~= models(before).push(v.model()));
                        }
                    },
                    Err(e) => {
                        proof {
                            lemma_list_error::<T>(field@, texts, i as int);
                        }
                        return Err(e);
                    },
                }
                i += 1;
            }
            proof {
                assert(texts.take(pieces.len() as int) =~= texts);
            }
            Ok(values)
        },
        None => Err(FieldValueError::Missing { field }),
    }
}

/// A list whose piece at `i` does not parse, while all pieces before it do,
/// fails with the error of that piece.
proof fn lemma_list_error<T: ParseValue>(field: Seq<char>, pieces: Seq<Seq<char>>, i: int)
    requires
        0 <= i < pieces.len(),
        parse_list_spec::<T>(field, pieces.take(i)) is Ok,
        parse_val_spec::<T>(field, pieces[i]) is Err,
    ensures
        parse_list_spec::<T>(field, pieces) == Err::<Seq<T::Model>, FieldValueErrorView>(
            parse_val_spec::<T>(field, pieces[i])->Err_0,
        ),
    decreases pieces.len() - i,
{
    assert(pieces.take(i + 1).drop_last() =~= pieces.take(i));
    assert(pieces.take(i + 1).last() == pieces[i]);
    lemma_list_error_stays::<T>(field, pieces, i + 1);
}

/// Once a prefix of a list fails, every longer prefix fails with the same error.
proof fn lemma_list_error_stays<T: ParseValue>(field: Seq<char>, pieces: Seq<Seq<char>>, n: int)
    requires
        0 <= n <= pieces.len(),
        parse_list_spec::<T>(field, pieces.take(n)) is Err,
    ensures
        parse_list_spec::<T>(field, pieces) == parse_list_spec::<T>(field, pieces.take(n)),
    decreases pieces.len() - n,
{
    if n == pieces.len() {
        assert(pieces.take(n) =~= pieces);
    } else {
        assert(pieces.take(n + 1).drop_last() =~= pieces.take(n));
        lemma_list_error_stays::<T>(field, pieces, n + 1);
    }
}

/// The bind address of the bridge of each configuration table.
#[derive(Debug, Clone)]
pub struct ExternalConfigTableServicePaths {
    // CONFIG_DB
    pub dpu: ServicePath,
    pub vdpu: ServicePath,
    pub dash_ha_global_config: ServicePath,

    // APPL_DB
    pub dash_ha_set_config_table: ServicePath,
    pub dash_ha_scope_config_table: ServicePath,
    pub dash_eni_placement_table: Option<ServicePath>,

    // DPU_APPL_DB
    pub dash_eni_table: Vec<ServicePath>,
}

/// CONFIG_DB::DPU table entry schema
#[derive(Debug, Clone)]
pub struct Dpu {
    pub type_: DpuType,
    pub state: String,
    pub slot_id: String,
    pub pa_ipv4: String,
    pub pa_ipv6: String,
    pub npu_ipv4: String,
    pub npu_ipv6: String,
    pub probe_ip: Option<String>,
}

/// What a [`Dpu`] stands for.
pub struct DpuView {
    pub type_: DpuType,
    pub state: Seq<char>,
    pub slot_id: Seq<char>,
    pub pa_ipv4: Seq<char>,
    pub pa_ipv6: Seq<char>,
    pub npu_ipv4: Seq<char>,
    pub npu_ipv6: Seq<char>,
    pub probe_ip: Option<Seq<char>>,
}

impl View for Dpu {
    type V = DpuView;

    open spec fn view(&self) -> DpuView {
        DpuView {
            type_: self.type_,
            state: self.state@,
            slot_id: self.slot_id@,
            pa_ipv4: self.pa_ipv4@,
            pa_ipv6: self.pa_ipv6@,
            npu_ipv4: self.npu_ipv4@,
            npu_ipv6: self.npu_ipv6@,
            probe_ip: match self.probe_ip {
                Some(v) => Some(v@),
                None => None,
            },
        }
    }
}

impl Dpu {
    /// What a row reads as: every field is read as its type says, and the
    /// first field, in the order of the struct, that cannot be read
    /// decides the error.
    pub open spec fn from_fvs_spec(row: Map<Seq<char>, Seq<u8>>) -> Result<
        DpuView,
        FieldValueErrorView,
    > {
        let type_ = parse_fv_spec::<DpuType>(row, "type"@);
        let state = parse_fv_spec::<String>(row, "state"@);
        let slot_id = parse_fv_spec::<String>(row, "slot_id"@);
        let pa_ipv4 = parse_fv_spec::<String>(row, "pa_ipv4"@);
        let pa_ipv6 = parse_fv_spec::<String>(row, "pa_ipv6"@);
        let npu_ipv4 = parse_fv_spec::<String>(row, "npu_ipv4"@);
        let npu_ipv6 = parse_fv_spec::<String>(row, "npu_ipv6"@);
        let probe_ip = parse_fv_option_spec::<String>(row, "probe_ip"@);
        if type_ is Err {
            Err(type_->Err_0)
        } else if state is Err {
            Err(state->Err_0)
        } else if slot_id is Err {
            Err(slot_id->Err_0)
        } else if pa_ipv4 is Err {
            Err(pa_ipv4->Err_0)
        } else if pa_ipv6 is Err {
            Err(pa_ipv6->Err_0)
        } else if npu_ipv4 is Err {
            Err(npu_ipv4->Err_0)
        } else if npu_ipv6 is Err {
            Err(npu_ipv6->Err_0)
        } else if probe_ip is Err {
            Err(probe_ip->Err_0)
        } else {
            Ok(
                DpuView {
                    type_: type_->Ok_0,
                    state: state->Ok_0,
                    slot_id: slot_id->Ok_0,
                    pa_ipv4: pa_ipv4->Ok_0,
                    pa_ipv6: pa_ipv6->Ok_0,
                    npu_ipv4: npu_ipv4->Ok_0,
                    npu_ipv6: npu_ipv6->Ok_0,
                    probe_ip: probe_ip->Ok_0,
                },
            )
        }
    }

    /// Reads a row of the table.
    pub fn from_fvs(fvs: &FieldValues) -> (r: Result<Self, FieldValueError>)
        ensures
            match r {
                Ok(v) => Self::from_fvs_spec(fvs@) == Ok::<DpuView, FieldValueErrorView>(v@),
                Err(e) => Self::from_fvs_spec(fvs@) == Err::<DpuView, FieldValueErrorView>(e@),
            },
    {
        let type_ = parse_fv::<DpuType>(fvs, "type")?;
        let state = parse_fv::<String>(fvs, "state")?;
        let slot_id = parse_fv::<String>(fvs, "slot_id")?;
        let pa_ipv4 = parse_fv::<String>(fvs, "pa_ipv4")?;
        let pa_ipv6 = parse_fv::<String>(fvs, "pa_ipv6")?;
        let npu_ipv4 = parse_fv::<String>(fvs, "npu_ipv4")?;
        let npu_ipv6 = parse_fv::<String>(fvs, "npu_ipv6")?;
        let probe_ip = parse_fv_option::<String>(fvs, "probe_ip")?;
        Ok(Dpu { type_, state, slot_id, pa_ipv4, pa_ipv6, npu_ipv4, npu_ipv6, probe_ip })
    }
}

/// The kind of a DPU.
#[derive(Debug, Clone, Copy, PartialEq, Eq, Structural)]
pub enum DpuType {
    Local,
    Cluster,
    External,
}

impl ParseValue for DpuType {
    type Model = DpuType;

    open spec fn model(&self) -> DpuType {
        *self
    }

    open spec fn from_str_spec(s: Seq<char>) -> Option<DpuType> {
        if s == "local"@ {
            Some(DpuType::Local)
        } else if s == "cluster"@ {
            Some(DpuType::Cluster)
        } else if s == "external"@ {
            Some(DpuType::External)
        } else {
            None
        }
    }

    open spec fn error_text(s: Seq<char>) -> Seq<char> {
        variant_not_found()
    }

    fn from_str(s: &str) -> (r: Result<Self, String>) {
        if str_eq(s, "local") {
            Ok(DpuType::Local)
        } else if str_eq(s, "cluster") {
            Ok(DpuType::Cluster)
        } else if str_eq(s, "external") {
            Ok(DpuType::External)
        } else {
            Err("Matching variant not found".to_owned())
        }
    }
}

/// CONFIG_DB::VDPU table entry schema
#[derive(Debug, Clone)]
pub struct VDpu {
    pub profile: String,
    pub tier: String,
    pub main_dpu_ids: String,
}

/// What a [`VDpu`] stands for.
pub struct VDpuView {
    pub profile: Seq<char>,
    pub tier: Seq<char>,
    pub main_dpu_ids: Seq<char>,
}

impl View for VDpu {
    type V = VDpuView;

    open spec fn view(&self) -> VDpuView {
        VDpuView {
            profile: self.profile@,
            tier: self.tier@,
            main_dpu_ids: self.main_dpu_ids@,
        }
    }
}

impl VDpu {
    /// What a row reads as: every field is read as its type says, and the
    /// first field, in the order of the struct, that cannot be read
    /// decides the error.
    pub open spec fn from_fvs_spec(row: Map<Seq<char>, Seq<u8>>) -> Result<
        VDpuView,
        FieldValueErrorView,
    > {
        let profile = parse_fv_spec::<String>(row, "profile"@);
        let tier = parse_fv_spec::<String>(row, "tier"@);
        let main_dpu_ids = parse_fv_spec::<String>(row, "main_dpu_ids"@);
        if profile is Err {
            Err(profile->Err_0)
        } else if tier is Err {
            Err(tier->Err_0)
        } else if main_dpu_ids is Err {
            Err(main_dpu_ids->Err_0)
        } else {
            Ok(
                VDpuView {
                    profile: profile->Ok_0,
                    tier: tier->Ok_0,
                    main_dpu_ids: main_dpu_ids->Ok_0,
                },
            )
        }
    }

    /// Reads a row of the table.
    pub fn from_fvs(fvs: &FieldValues) -> (r: Result<Self, FieldValueError>)
        ensures
            match r {
                Ok(v) => Self::from_fvs_spec(fvs@) == Ok::<VDpuView, FieldValueErrorView>(v@),
                Err(e) => Self::from_fvs_spec(fvs@) == Err::<VDpuView, FieldValueErrorView>(e@),
            },
    {
        let profile = parse_fv::<String>(fvs, "profile")?;
        let tier = parse_fv::<String>(fvs, "tier")?;
        let main_dpu_ids = parse_fv::<String>(fvs, "main_dpu_ids")?;
        Ok(VDpu { profile, tier, main_dpu_ids })
    }
}

/// CONFIG_DB::DASH_HA_GLOBAL_CONFIG schema
#[derive(Debug, Clone)]
pub struct DashHAGlobalConfig {
    pub cp_data_channel_port: u16,
    pub dp_channel_dst_port: u16,
    pub dp_channel_srt_port_min: u16,
    pub dp_channel_src_port_max: u16,
    pub dp_channel_probe_interval_ms: u64,
    pub dp_channel_probe_fail_threshold: u64,
    pub dpu_bfd_probe_interval_in_ms: u64,
    pub dpu_bfd_probe_multiplier: u64,
}

/// What a [`DashHAGlobalConfig`] stands for.
pub struct DashHAGlobalConfigView {
    pub cp_data_channel_port: u16,
    pub dp_channel_dst_port: u16,
    pub dp_channel_srt_port_min: u16,
    pub dp_channel_src_port_max: u16,
    pub dp_channel_probe_interval_ms: u64,
    pub dp_channel_probe_fail_threshold: u64,
    pub dpu_bfd_probe_interval_in_ms: u64,
    pub dpu_bfd_probe_multiplier: u64,
}

impl View for DashHAGlobalConfig {
    type V = DashHAGlobalConfigView;

    open spec fn view(&self) -> DashHAGlobalConfigView {
        DashHAGlobalConfigView {
            cp_data_channel_port: self.cp_data_channel_port,
            dp_channel_dst_port: self.dp_channel_dst_port,
            dp_channel_srt_port_min: self.dp_channel_srt_port_min,
            dp_channel_src_port_max: self.dp_channel_src_port_max,
            dp_channel_probe_interval_ms: self.dp_channel_probe_interval_ms,
            dp_channel_probe_fail_threshold: self.dp_channel_probe_fail_threshold,
            dpu_bfd_probe_interval_in_ms: self.dpu_bfd_probe_interval_in_ms,
            dpu_bfd_probe_multiplier: self.dpu_bfd_probe_multiplier,
        }
    }
}

impl DashHAGlobalConfig {
    /// What a row reads as: every field is read as its type says, and the
    /// first field, in the order of the struct, that cannot be read
    /// decides the error.
    pub open spec fn from_fvs_spec(row: Map<Seq<char>, Seq<u8>>) -> Result<
        DashHAGlobalConfigView,
        FieldValueErrorView,
    > {
        let cp_data_channel_port = parse_fv_spec::<u16>(row, "cp_data_channel_port"@);
        let dp_channel_dst_port = parse_fv_spec::<u16>(row, "dp_channel_dst_port"@);
        let dp_channel_srt_port_min = parse_fv_spec::<u16>(row, "dp_channel_src_port_min"@);
        let dp_channel_src_port_max = parse_fv_spec::<u16>(row, "dp_channel_src_port_max"@);
        let dp_channel_probe_interval_ms = parse_fv_spec::<u64>(
            row,
            "dp_channel_probe_interval_ms"@,
        );
        let dp_channel_probe_fail_threshold = parse_fv_spec::<u64>(
            row,
            "dp_channel_probe_fail_threshold"@,
        );
        let dpu_bfd_probe_interval_in_ms = parse_fv_spec::<u64>(
            row,
            "dpu_bfd_probe_interval_in_ms"@,
        );
        let dpu_bfd_probe_multiplier = parse_fv_spec::<u64>(row, "dpu_bfd_probe_multiplier"@);
        if cp_data_channel_port is Err {
            Err(cp_data_channel_port->Err_0)
        } else if dp_channel_dst_port is Err {
            Err(dp_channel_dst_port->Err_0)
        } else if dp_channel_srt_port_min is Err {
            Err(dp_channel_srt_port_min->Err_0)
        } else if dp_channel_src_port_max is Err {
            Err(dp_channel_src_port_max->Err_0)
        } else if dp_channel_probe_interval_ms is Err {
            Err(dp_channel_probe_interval_ms->Err_0)
        } else if dp_channel_probe_fail_threshold is Err {
            Err(dp_channel_probe_fail_threshold->Err_0)
        } else if dpu_bfd_probe_interval_in_ms is Err {
            Err(dpu_bfd_probe_interval_in_ms->Err_0)
        } else if dpu_bfd_probe_multiplier is Err {
            Err(dpu_bfd_probe_multiplier->Err_0)
        } else {
            Ok(
                DashHAGlobalConfigView {
                    cp_data_channel_port: cp_data_channel_port->Ok_0,
                    dp_channel_dst_port: dp_channel_dst_port->Ok_0,
                    dp_channel_srt_port_min: dp_channel_srt_port_min->Ok_0,
                    dp_channel_src_port_max: dp_channel_src_port_max->Ok_0,
                    dp_channel_probe_interval_ms: dp_channel_probe_interval_ms->Ok_0,
                    dp_channel_probe_fail_threshold: dp_channel_probe_fail_threshold->Ok_0,
                    dpu_bfd_probe_interval_in_ms: dpu_bfd_probe_interval_in_ms->Ok_0,
                    dpu_bfd_probe_multiplier: dpu_bfd_probe_multiplier->Ok_0,
                },
            )
        }
    }

    /// Reads a row of the table.
    pub fn from_fvs(fvs: &FieldValues) -> (r: Result<Self, FieldValueError>)
        ensures
            match r {
                Ok(v) => Self::from_fvs_spec(fvs@) == Ok::<DashHAGlobalConfigView, FieldValueErrorView>(v@),
                Err(e) => Self::from_fvs_spec(fvs@) == Err::<DashHAGlobalConfigView, FieldValueErrorView>(e@),
            },
    {
        let cp_data_channel_port = parse_fv::<u16>(fvs, "cp_data_channel_port")?;
        let dp_channel_dst_port = parse_fv::<u16>(fvs, "dp_channel_dst_port")?;
        let dp_channel_srt_port_min = parse_fv::<u16>(fvs, "dp_channel_src_port_min")?;
        let dp_channel_src_port_max = parse_fv::<u16>(fvs, "dp_channel_src_port_max")?;
        let dp_channel_probe_interval_ms = parse_fv::<u64>(fvs, "dp_channel_probe_interval_ms")?;
        let dp_channel_probe_fail_threshold = parse_fv::<u64>(
            fvs,
            "dp_channel_probe_fail_threshold",
        )?;
        let dpu_bfd_probe_interval_in_ms = parse_fv::<u64>(fvs, "dpu_bfd_probe_interval_in_ms")?;
        let dpu_bfd_probe_multiplier = parse_fv::<u64>(fvs, "dpu_bfd_probe_multiplier")?;
        Ok(
            DashHAGlobalConfig {
                cp_data_channel_port,
                dp_channel_dst_port,
                dp_channel_srt_port_min,
                dp_channel_src_port_max,
                dp_channel_probe_interval_ms,
                dp_channel_probe_fail_threshold,
                dpu_bfd_probe_interval_in_ms,
                dpu_bfd_probe_multiplier,
            },
        )
    }
}

/// APPL_DB::DASH_HA_SET_CONFIG_TABLE table entry schema
#[derive(Debug, Clone)]
pub struct DashHASetConfigTable {
    pub version: String,
    pub vip_v4: String,
    pub vip_v6: String,
    pub owner: HaOwner,
    pub scope: HaScope,
    pub vdpu_ids: String,
    pub pinned_vdpu_bfd_probe_states: Vec<PinnedVDpuBfdProbeState>,
    pub preferred_vdpu_id: String,
    pub preferred_standalone_vdpu_index: Option<u64>,
}

/// What a [`DashHASetConfigTable`] stands for.
pub struct DashHASetConfigTableView {
    pub version: Seq<char>,
    pub vip_v4: Seq<char>,
    pub vip_v6: Seq<char>,
    pub owner: HaOwner,
    pub scope: HaScope,
    pub vdpu_ids: Seq<char>,
    pub pinned_vdpu_bfd_probe_states: Seq<PinnedVDpuBfdProbeState>,
    pub preferred_vdpu_id: Seq<char>,
    pub preferred_standalone_vdpu_index: Option<u64>,
}

impl View for DashHASetConfigTable {
    type V = DashHASetConfigTableView;

    open spec fn view(&self) -> DashHASetConfigTableView {
        DashHASetConfigTableView {
            version: self.version@,
            vip_v4: self.vip_v4@,
            vip_v6: self.vip_v6@,
            owner: self.owner,
            scope: self.scope,
            vdpu_ids: self.vdpu_ids@,
            pinned_vdpu_bfd_probe_states: models(self.pinned_vdpu_bfd_probe_states@),
            preferred_vdpu_id: self.preferred_vdpu_id@,
            preferred_standalone_vdpu_index: self.preferred_standalone_vdpu_index,
        }
    }
}

impl DashHASetConfigTable {
    /// What a row reads as: every field is read as its type says, and the
    /// first field, in the order of the struct, that cannot be read
    /// decides the error.
    pub open spec fn from_fvs_spec(row: Map<Seq<char>, Seq<u8>>) -> Result<
        DashHASetConfigTableView,
        FieldValueErrorView,
    > {
        let version = parse_fv_spec::<String>(row, "version"@);
        let vip_v4 = parse_fv_spec::<String>(row, "vip_v4"@);
        let vip_v6 = parse_fv_spec::<String>(row, "vip_v6"@);
        let owner = parse_fv_spec::<HaOwner>(row, "owner"@);
        let scope = parse_fv_spec::<HaScope>(row, "scope"@);
        let vdpu_ids = parse_fv_spec::<String>(row, "vdpu_ids"@);
        let pinned_vdpu_bfd_probe_states = parse_fv_list_spec::<PinnedVDpuBfdProbeState>(
            row,
            "pinned_vdpu_bfd_probe_states"@,
        );
        let preferred_vdpu_id = parse_fv_spec::<String>(row, "prefered_vdpu_id"@);
        let preferred_standalone_vdpu_index = parse_fv_option_spec::<u64>(
            row,
            "preferred_standalone_vdpu_index"@,
        );
        if version is Err {
            Err(version->Err_0)
        } else if vip_v4 is Err {
            Err(vip_v4->Err_0)
        } else if vip_v6 is Err {
            Err(vip_v6->Err_0)
        } else if owner is Err {
            Err(owner->Err_0)
        } else if scope is Err {
            Err(scope->Err_0)
        } else if vdpu_ids is Err {
            Err(vdpu_ids->Err_0)
        } else if pinned_vdpu_bfd_probe_states is Err {
            Err(pinned_vdpu_bfd_probe_states->Err_0)
        } else if preferred_vdpu_id is Err {
            Err(preferred_vdpu_id->Err_0)
        } else if preferred_standalone_vdpu_index is Err {
            Err(preferred_standalone_vdpu_index->Err_0)
        } else {
            Ok(
                DashHASetConfigTableView {
                    version: version->Ok_0,
                    vip_v4: vip_v4->Ok_0,
                    vip_v6: vip_v6->Ok_0,
                    owner: owner->Ok_0,
                    scope: scope->Ok_0,
                    vdpu_ids: vdpu_ids->Ok_0,
                    pinned_vdpu_bfd_probe_states: pinned_vdpu_bfd_probe_states->Ok_0,
                    preferred_vdpu_id: preferred_vdpu_id->Ok_0,
                    preferred_standalone_vdpu_index: preferred_standalone_vdpu_index->Ok_0,
                },
            )
        }
    }

    /// Reads a row of the table.
    pub fn from_fvs(fvs: &FieldValues) -> (r: Result<Self, FieldValueError>)
        ensures
            match r {
                Ok(v) => Self::from_fvs_spec(fvs@) == Ok::<DashHASetConfigTableView, FieldValueErrorView>(v@),
                Err(e) => Self::from_fvs_spec(fvs@) == Err::<DashHASetConfigTableView, FieldValueErrorView>(e@),
            },
    {
        let version = parse_fv::<String>(fvs, "version")?;
        let vip_v4 = parse_fv::<String>(fvs, "vip_v4")?;
        let vip_v6 = parse_fv::<String>(fvs, "vip_v6")?;
        let owner = parse_fv::<HaOwner>(fvs, "owner")?;
        let scope = parse_fv::<HaScope>(fvs, "scope")?;
        let vdpu_ids = parse_fv::<String>(fvs, "vdpu_ids")?;
        let pinned_vdpu_bfd_probe_states = parse_fv_comma_separated_list::<PinnedVDpuBfdProbeState>(
            fvs,
            "pinned_vdpu_bfd_probe_states",
        )?;
        let preferred_vdpu_id = parse_fv::<String>(fvs, "prefered_vdpu_id")?;
        let preferred_standalone_vdpu_index = parse_fv_option::<u64>(
            fvs,
            "preferred_standalone_vdpu_index",
        )?;
        Ok(
            DashHASetConfigTable {
                version,
                vip_v4,
                vip_v6,
                owner,
                scope,
                vdpu_ids,
                pinned_vdpu_bfd_probe_states,
                preferred_vdpu_id,
                preferred_standalone_vdpu_index,
            },
        )
    }
}

/// A pinned BFD probe state of a vDPU.
#[derive(Debug, Clone, Copy, PartialEq, Eq, Structural)]
pub enum PinnedVDpuBfdProbeState {
    /// Written `none`: the probe state is not pinned.
    Unspecified,
    Up,
    Down,
}

impl ParseValue for PinnedVDpuBfdProbeState {
    type Model = PinnedVDpuBfdProbeState;

    open spec fn model(&self) -> PinnedVDpuBfdProbeState {
        *self
    }

    open spec fn from_str_spec(s: Seq<char>) -> Option<PinnedVDpuBfdProbeState> {
        if s == "none"@ {
            Some(PinnedVDpuBfdProbeState::Unspecified)
        } else if s == "up"@ {
            Some(PinnedVDpuBfdProbeState::Up)
        } else if s == "down"@ {
            Some(PinnedVDpuBfdProbeState::Down)
        } else {
            None
        }
    }

    open spec fn error_text(s: Seq<char>) -> Seq<char> {
        variant_not_found()
    }

    fn from_str(s: &str) -> (r: Result<Self, String>) {
        if str_eq(s, "none") {
            Ok(PinnedVDpuBfdProbeState::Unspecified)
        } else if str_eq(s, "up") {
            Ok(PinnedVDpuBfdProbeState::Up)
        } else if str_eq(s, "down") {
            Ok(PinnedVDpuBfdProbeState::Down)
        } else {
            Err("Matching variant not found".to_owned())
        }
    }
}

/// Who drives the state machine of an HA set.
#[derive(Debug, Clone, Copy, PartialEq, Eq, Structural)]
pub enum HaOwner {
    Dpu,
    Switch,
}

impl ParseValue for HaOwner {
    type Model = HaOwner;

    open spec fn model(&self) -> HaOwner {
        *self
    }

    open spec fn from_str_spec(s: Seq<char>) -> Option<HaOwner> {
        if s == "dpu"@ {
            Some(HaOwner::Dpu)
        } else if s == "switch"@ {
            Some(HaOwner::Switch)
        } else {
            None
        }
    }

    open spec fn error_text(s: Seq<char>) -> Seq<char> {
        variant_not_found()
    }

    fn from_str(s: &str) -> (r: Result<Self, String>) {
        if str_eq(s, "dpu") {
            Ok(HaOwner::Dpu)
        } else if str_eq(s, "switch") {
            Ok(HaOwner::Switch)
        } else {
            Err("Matching variant not found".to_owned())
        }
    }
}

/// The scope of an HA set.
#[derive(Debug, Clone, Copy, PartialEq, Eq, Structural)]
pub enum HaScope {
    Dpu,
    Eni,
}

impl ParseValue for HaScope {
    type Model = HaScope;

    open spec fn model(&self) -> HaScope {
        *self
    }

    open spec fn from_str_spec(s: Seq<char>) -> Option<HaScope> {
        if s == "dpu"@ {
            Some(HaScope::Dpu)
        } else if s == "eni"@ {
            Some(HaScope::Eni)
        } else {
            None
        }
    }

    open spec fn error_text(s: Seq<char>) -> Seq<char> {
        variant_not_found()
    }

    fn from_str(s: &str) -> (r: Result<Self, String>) {
        if str_eq(s, "dpu") {
            Ok(HaScope::Dpu)
        } else if str_eq(s, "eni") {
            Ok(HaScope::Eni)
        } else {
            Err("Matching variant not found".to_owned())
        }
    }
}

/// APPL_DB::DASH_HA_SCOPE_CONFIG_TABLE table entry schema
#[derive(Debug, Clone)]
pub struct DashHAScopeConfigTable {
    pub version: String,
    pub disabled: bool,
    pub desired_ha_state: DesiredHaState,
    pub approved_pending_operation_ids: Vec<String>,
}

/// What a [`DashHAScopeConfigTable`] stands for.
pub struct DashHAScopeConfigTableView {
    pub version: Seq<char>,
    pub disabled: bool,
    pub desired_ha_state: DesiredHaState,
    pub approved_pending_operation_ids: Seq<Seq<char>>,
}

impl View for DashHAScopeConfigTable {
    type V = DashHAScopeConfigTableView;

    open spec fn view(&self) -> DashHAScopeConfigTableView {
        DashHAScopeConfigTableView {
            version: self.version@,
            disabled: self.disabled,
            desired_ha_state: self.desired_ha_state,
            approved_pending_operation_ids: models(self.approved_pending_operation_ids@),
        }
    }
}

impl DashHAScopeConfigTable {
    /// What a row reads as: every field is read as its type says, and the
    /// first field, in the order of the struct, that cannot be read
    /// decides the error.
    pub open spec fn from_fvs_spec(row: Map<Seq<char>, Seq<u8>>) -> Result<
        DashHAScopeConfigTableView,
        FieldValueErrorView,
    > {
        let version = parse_fv_spec::<String>(row, "version"@);
        let disabled = parse_fv_spec::<bool>(row, "disabled"@);
        let desired_ha_state = parse_fv_spec::<DesiredHaState>(row, "desired_ha_state"@);
        let approved_pending_operation_ids = parse_fv_list_spec::<String>(
            row,
            "approved_pending_operation_ids"@,
        );
        if version is Err {
            Err(version->Err_0)
        } else if disabled is Err {
            Err(disabled->Err_0)
        } else if desired_ha_state is Err {
            Err(desired_ha_state->Err_0)
        } else if approved_pending_operation_ids is Err {
            Err(approved_pending_operation_ids->Err_0)
        } else {
            Ok(
                DashHAScopeConfigTableView {
                    version: version->Ok_0,
                    disabled: disabled->Ok_0,
                    desired_ha_state: desired_ha_state->Ok_0,
                    approved_pending_operation_ids: approved_pending_operation_ids->Ok_0,
                },
            )
        }
    }

    /// Reads a row of the table.
    pub fn from_fvs(fvs: &FieldValues) -> (r: Result<Self, FieldValueError>)
        ensures
            match r {
                Ok(v) => Self::from_fvs_spec(fvs@) == Ok::<DashHAScopeConfigTableView, FieldValueErrorView>(v@),
                Err(e) => Self::from_fvs_spec(fvs@) == Err::<DashHAScopeConfigTableView, FieldValueErrorView>(e@),
            },
    {
        let version = parse_fv::<String>(fvs, "version")?;
        let disabled = parse_fv::<bool>(fvs, "disabled")?;
        let desired_ha_state = parse_fv::<DesiredHaState>(fvs, "desired_ha_state")?;
        let approved_pending_operation_ids = parse_fv_comma_separated_list::<String>(
            fvs,
            "approved_pending_operation_ids",
        )?;
        Ok(
            DashHAScopeConfigTable {
                version,
                disabled,
                desired_ha_state,
                approved_pending_operation_ids,
            },
        )
    }
}

/// The HA state that is asked for.
#[derive(Debug, Clone, Copy, PartialEq, Eq, Structural)]
pub enum DesiredHaState {
    /// Written `none`: no state is asked for.
    Unspecified,
    Dead,
    Active,
    Standalone,
}

impl ParseValue for DesiredHaState {
    type Model = DesiredHaState;

    open spec fn model(&self) -> DesiredHaState {
        *self
    }

    open spec fn from_str_spec(s: Seq<char>) -> Option<DesiredHaState> {
        if s == "none"@ {
            Some(DesiredHaState::Unspecified)
        } else if s == "dead"@ {
            Some(DesiredHaState::Dead)
        } else if s == "active"@ {
            Some(DesiredHaState::Active)
        } else if s == "standalone"@ {
            Some(DesiredHaState::Standalone)
        } else {
            None
        }
    }

    open spec fn error_text(s: Seq<char>) -> Seq<char> {
        variant_not_found()
    }

    fn from_str(s: &str) -> (r: Result<Self, String>) {
        if str_eq(s, "none") {
            Ok(DesiredHaState::Unspecified)
        } else if str_eq(s, "dead") {
            Ok(DesiredHaState::Dead)
        } else if str_eq(s, "active") {
            Ok(DesiredHaState::Active)
        } else if str_eq(s, "standalone") {
            Ok(DesiredHaState::Standalone)
        } else {
            Err("Matching variant not found".to_owned())
        }
    }
}

/// APPL_DB::DASH_ENI_PLACEMENT_TABLE table entry schema
#[derive(Debug, Clone)]
pub struct DashEniPlacementTable {
    pub version: String,
    pub eni_mac: String,
    pub ha_set_id: String,
    pub pinned_next_hop_index: Option<u64>,
}

/// What a [`DashEniPlacementTable`] stands for.
pub struct DashEniPlacementTableView {
    pub version: Seq<char>,
    pub eni_mac: Seq<char>,
    pub ha_set_id: Seq<char>,
    pub pinned_next_hop_index: Option<u64>,
}

impl View for DashEniPlacementTable {
    type V = DashEniPlacementTableView;

    open spec fn view(&self) -> DashEniPlacementTableView {
        DashEniPlacementTableView {
            version: self.version@,
            eni_mac: self.eni_mac@,
            ha_set_id: self.ha_set_id@,
            pinned_next_hop_index: self.pinned_next_hop_index,
        }
    }
}

impl DashEniPlacementTable {
    /// What a row reads as: every field is read as its type says, and the
    /// first field, in the order of the struct, that cannot be read
    /// decides the error.
    pub open spec fn from_fvs_spec(row: Map<Seq<char>, Seq<u8>>) -> Result<
        DashEniPlacementTableView,
        FieldValueErrorView,
    > {
        let version = parse_fv_spec::<String>(row, "version"@);
        let eni_mac = parse_fv_spec::<String>(row, "eni_mac"@);
        let ha_set_id = parse_fv_spec::<String>(row, "ha_set_id"@);
        let pinned_next_hop_index = parse_fv_option_spec::<u64>(row, "pinned_next_hop_index"@);
        if version is Err {
            Err(version->Err_0)
        } else if eni_mac is Err {
            Err(eni_mac->Err_0)
        } else if ha_set_id is Err {
            Err(ha_set_id->Err_0)
        } else if pinned_next_hop_index is Err {
            Err(pinned_next_hop_index->Err_0)
        } else {
            Ok(
                DashEniPlacementTableView {
                    version: version->Ok_0,
                    eni_mac: eni_mac->Ok_0,
                    ha_set_id: ha_set_id->Ok_0,
                    pinned_next_hop_index: pinned_next_hop_index->Ok_0,
                },
            )
        }
    }

    /// Reads a row of the table.
    pub fn from_fvs(fvs: &FieldValues) -> (r: Result<Self, FieldValueError>)
        ensures
            match r {
                Ok(v) => Self::from_fvs_spec(fvs@) == Ok::<DashEniPlacementTableView, FieldValueErrorView>(v@),
                Err(e) => Self::from_fvs_spec(fvs@) == Err::<DashEniPlacementTableView, FieldValueErrorView>(e@),
            },
    {
        let version = parse_fv::<String>(fvs, "version")?;
        let eni_mac = parse_fv::<String>(fvs, "eni_mac")?;
        let ha_set_id = parse_fv::<String>(fvs, "ha_set_id")?;
        let pinned_next_hop_index = parse_fv_option::<u64>(fvs, "pinned_next_hop_index")?;
        Ok(DashEniPlacementTable { version, eni_mac, ha_set_id, pinned_next_hop_index })
    }
}

/// DPU_APPL_DB::DASH_ENI_TABLE table entry schema
#[derive(Debug, Clone)]
pub struct DashEniTable {
    pub admin_state: String,
    pub ha_scope_id: String,
}

/// What a [`DashEniTable`] stands for.
pub struct DashEniTableView {
    pub admin_state: Seq<char>,
    pub ha_scope_id: Seq<char>,
}

impl View for DashEniTable {
    type V = DashEniTableView;

    open spec fn view(&self) -> DashEniTableView {
        DashEniTableView {
            admin_state: self.admin_state@,
            ha_scope_id: self.ha_scope_id@,
        }
    }
}

impl DashEniTable {
    /// What a row reads as: every field is read as its type says, and the
    /// first field, in the order of the struct, that cannot be read
    /// decides the error.
    pub open spec fn from_fvs_spec(row: Map<Seq<char>, Seq<u8>>) -> Result<
        DashEniTableView,
        FieldValueErrorView,
    > {
        let admin_state = parse_fv_spec::<String>(row, "admin_state"@);
        let ha_scope_id = parse_fv_spec::<String>(row, "ha_scope_id"@);
        if admin_state is Err {
            Err(admin_state->Err_0)
        } else if ha_scope_id is Err {
            Err(ha_scope_id->Err_0)
        } else {
            Ok(
                DashEniTableView {
                    admin_state: admin_state->Ok_0,
                    ha_scope_id: ha_scope_id->Ok_0,
                },
            )
        }
    }

    /// Reads a row of the table.
    pub fn from_fvs(fvs: &FieldValues) -> (r: Result<Self, FieldValueError>)
        ensures
            match r {
                Ok(v) => Self::from_fvs_spec(fvs@) == Ok::<DashEniTableView, FieldValueErrorView>(
                    v@,
                ),
                Err(e) => Self::from_fvs_spec(fvs@) == Err::<DashEniTableView, FieldValueErrorView>(
                    e@,
                ),
            },
    {
        let admin_state = parse_fv::<String>(fvs, "admin_state")?;
        let ha_scope_id = parse_fv::<String>(fvs, "ha_scope_id")?;
        Ok(DashEniTable { admin_state, ha_scope_id })
    }
}

} // verus!
