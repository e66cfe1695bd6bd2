//! Parameters: the TLV and TV encodings, and the typed decoders of the
//! parameters that responses carry.

use crate::encoder::{lemma_tlv_len, spec_length_field, spec_tlv};
use crate::error::LlrpError;
use crate::parameter_types::{lemma_parameter_type_round_trip, LlrpParameterType};
use crate::wire::{
    buffer_new, contents, i16_from_be, put_slice, put_u16, put_u8, u16_at, u16_be_bytes, u16_of_be,
    u32_at, Cursor,
};
use bytes::BytesMut;
use vstd::prelude::*;
use vstd::slice::{slice_subrange, slice_to_vec};
use vstd::string::StringExecFns;
use vstd::utf8::{decode_utf8, valid_utf8};

verus! {

/// The views of the items of a sequence, in order.
pub open spec fn seq_views<T: View>(s: Seq<T>) -> Seq<T::V> {
    Seq::new(s.len(), |i: int| s[i]@)
}

/// The view of an optional item.
pub open spec fn option_view<T: View>(o: Option<T>) -> Option<T::V> {
    match o {
        Some(t) => Some(t@),
        None => None,
    }
}

/// Pushing an item onto a sequence pushes its view onto the views.
pub proof fn lemma_seq_views_push<T: View>(s: Seq<T>, t: T)
    ensures
        seq_views(s.push(t)) == seq_views(s).push(t@),
{
}

/// One parameter as it was found in a parameter list.
#[derive(Debug)]
pub struct LlrpParameter {
    /// The parameter's type; `Custom` where its number is not in the registry.
    pub param_type: LlrpParameterType,
    /// The octets that the parameter occupies, its header included.
    pub param_length: u16,
    /// The octets after the header.
    pub param_value: Vec<u8>,
    /// The parameters nested in the value, where they have been extracted.
    pub sub_params: Option<Vec<LlrpParameter>>,
}

/// What a parameter is on the wire: its type, its length field and its value.
pub struct ParameterView {
    pub param_type: LlrpParameterType,
    pub param_length: u16,
    pub param_value: Seq<u8>,
}

impl View for LlrpParameter {
    type V = ParameterView;

    /// The wire fields of the parameter. `sub_params` is derived from the value
    /// and is not part of the view.
    open spec fn view(&self) -> ParameterView {
        ParameterView {
            param_type: self.param_type,
            param_length: self.param_length,
            param_value: self.param_value@,
        }
    }
}

/// The size of the value of a TV parameter of the given type, where the type has
/// one.
pub open spec fn spec_tv_param_length(param_type: LlrpParameterType) -> Option<usize> {
    match param_type {
        LlrpParameterType::EPC96 => Some(12),
        _ => None,
    }
}

/// The size of the value of a TV parameter of the given type; `None` where the
/// type has no fixed size.
pub fn get_tv_param_length(param_type: LlrpParameterType) -> (r: Option<usize>)
    ensures
        r == spec_tv_param_length(param_type),
{
    match param_type {
        LlrpParameterType::EPC96 => Some(12),
        _ => None,
    }
}

/// The parameter at the start of `b`, with the number of octets that it occupies.
///
/// A first octet with its high bit set starts a TV parameter: the other seven
/// bits are its type, and a value of the type's fixed size follows. Any other
/// first octet starts a TLV parameter: a 16-bit type, a 16-bit length that counts
/// the four header octets too, and the value.
pub open spec fn spec_parse_parameter(b: Seq<u8>) -> Result<(ParameterView, int), LlrpError>
    recommends
        b.len() > 0,
{
    if b[0] >= 128 {
        let t = LlrpParameterType::spec_from_value_or_custom((b[0] - 128) as u16);
        match spec_tv_param_length(t) {
            None => Err(LlrpError::UnknownTVType),
            Some(n) => if b.len() - 1 < n {
                Err(LlrpError::MalformedResponse)
            } else {
                Ok(
                    (
                        ParameterView {
                            param_type: t,
                            param_length: (1 + n) as u16,
                            param_value: b.subrange(1, 1 + n),
                        },
                        1 + n,
                    ),
                )
            },
        }
    } else if b.len() < 4 {
        Err(LlrpError::MalformedResponse)
    } else {
        let length = u16_at(b, 2);
        if length < 4 || length > b.len() {
            Err(LlrpError::MalformedResponse)
        } else {
            Ok(
                (
                    ParameterView {
                        param_type: LlrpParameterType::spec_from_value_or_custom(u16_at(b, 0)),
                        param_length: length,
                        param_value: b.subrange(4, length as int),
                    },
                    length as int,
                ),
            )
        }
    }
}

/// The parameters that `b` holds end to end, or the error of the first one that
/// cannot be read.
pub open spec fn spec_parse_parameters(b: Seq<u8>) -> Result<Seq<ParameterView>, LlrpError>
    decreases b.len(),
{
    if b.len() == 0 {
        Ok(Seq::empty())
    } else {
        match spec_parse_parameter(b) {
            Err(e) => Err(e),
            Ok((p, n)) => if 0 < n <= b.len() {
                match spec_parse_parameters(b.skip(n)) {
                    Err(e) => Err(e),
                    Ok(rest) => Ok(seq![p] + rest),
                }
            } else {
                Err(LlrpError::MalformedResponse)
            },
        }
    }
}

/// `ps` followed by what `rest` holds, or the error of `rest`.
pub open spec fn spec_parsed_then(
    ps: Seq<ParameterView>,
    rest: Result<Seq<ParameterView>, LlrpError>,
) -> Result<Seq<ParameterView>, LlrpError> {
    match rest {
        Ok(more) => Ok(ps + more),
        Err(e) => Err(e),
    }
}

/// Splits a flat run of octets into the parameters that it holds.
///
/// Each parameter comes back with its type, its length and its value; none has
/// `sub_params`. A TLV parameter of an unknown type is kept, with the type
/// `Custom`. A TV parameter whose type has no fixed size ends the parse with
/// `UnknownTVType`; a header or a value that is cut short, or a TLV length under
/// 4, ends it with `MalformedResponse`.
pub fn parse_parameters(buf: &[u8]) -> (r: Result<Vec<LlrpParameter>, LlrpError>)
    ensures
        match spec_parse_parameters(buf@) {
            Ok(ps) => r matches Ok(v) && seq_views(v@) == ps && forall|i: int|
                0 <= i < v@.len() ==> (#[trigger] v@[i]).sub_params is None,
            Err(e) => r == Err::<Vec<LlrpParameter>, LlrpError>(e),
        },
{
    let mut parameters: Vec<LlrpParameter> = Vec::new();
    let mut index: usize = 0;
    let buf_len: usize = buf.len();

    assert(buf@.skip(0) =~= buf@);

    while index < buf_len
        invariant
            buf_len == buf@.len(),
            index <= buf_len,
            spec_parse_parameters(buf@) == spec_parsed_then(
                seq_views(parameters@),
                spec_parse_parameters(buf@.skip(index as int)),
            ),
            forall|i: int| 0 <= i < parameters@.len() ==> (#[trigger] parameters@[i]).sub_params is None,
        decreases buf_len - index,
    {
        let ghost here = buf@.skip(index as int);
        let ghost before = seq_views(parameters@);

        let first_byte: u8 = buf[index];
        let parameter = if first_byte >= 128 {
            let param_type_value: u8 = first_byte - 128;
            let param_type = match LlrpParameterType::from_value(param_type_value as u16) {
                Some(t) => t,
                None => LlrpParameterType::Custom,
            };
            let param_value_length: usize = match get_tv_param_length(param_type) {
                Some(n) => n,
                None => {
                    return Err(LlrpError::UnknownTVType);
                },
            };
            if buf_len - index - 1 < param_value_length {
                return Err(LlrpError::MalformedResponse);
            }
            let param_value = slice_to_vec(
                slice_subrange(buf, index + 1, index + 1 + param_value_length),
            );
            assert(param_value@ =~= here.subrange(1, 1 + param_value_length));
            index = index + 1 + param_value_length;
            LlrpParameter {
                param_type,
                param_length: (1 + param_value_length) as u16,
                param_value,
                sub_params: None,
            }
        } else {
            if buf_len - index < 4 {
                return Err(LlrpError::MalformedResponse);
            }
            let param_type_value: u16 = u16_of_be(buf[index], buf[index + 1]);
            let param_length: u16 = u16_of_be(buf[index + 2], buf[index + 3]);
            if param_length < 4 || param_length as usize > buf_len - index {
                return Err(LlrpError::MalformedResponse);
            }
            let param_value = slice_to_vec(
                slice_subrange(buf, index + 4, index + param_length as usize),
            );
            assert(param_value@ =~= here.subrange(4, param_length as int));
            let param_type = match LlrpParameterType::from_value(param_type_value) {
                Some(t) => t,
                None => LlrpParameterType::Custom,
            };
            index = index + param_length as usize;
            LlrpParameter { param_type, param_length, param_value, sub_params: None }
        };

        proof {
            let n = index - (buf_len - here.len());
            assert(spec_parse_parameter(here) == Ok::<(ParameterView, int), LlrpError>(
                (parameter@, n as int),
            ));
            assert(here.skip(n as int) =~= buf@.skip(index as int));
            lemma_seq_views_push(parameters@, parameter);
            let rest = spec_parse_parameters(buf@.skip(index as int));
            if rest is Ok {
                assert((before + (seq![parameter@] + rest->Ok_0)) =~= (before.push(parameter@)
                    + rest->Ok_0));
            }
        }
        parameters.push(parameter);
    }

    Ok(parameters)
}

/// The views of a result: that of the value, or the error as it is.
pub open spec fn result_view<T: View>(r: Result<T, LlrpError>) -> Result<T::V, LlrpError> {
    match r {
        Ok(t) => Ok(t@),
        Err(e) => Err(e),
    }
}

/// The status that the reader gives with a response.
#[derive(Debug, Clone, Copy, PartialEq, Eq, Structural)]
pub struct LLRPStatus {
    pub status_code: u16,
    pub error_desc: u16,
}

/// What the value of an `LLRPStatus` parameter holds: two 16-bit fields.
pub open spec fn spec_decode_llrp_status(b: Seq<u8>) -> Result<LLRPStatus, LlrpError> {
    if b.len() < 4 {
        Err(LlrpError::MalformedResponse)
    } else {
        Ok(LLRPStatus { status_code: u16_at(b, 0), error_desc: u16_at(b, 2) })
    }
}

impl LLRPStatus {
    /// Reads the value of an `LLRPStatus` parameter; `MalformedResponse` where it
    /// has fewer than 4 octets.
    pub fn decode(buf: &[u8]) -> (r: Result<LLRPStatus, LlrpError>)
        ensures
            r == spec_decode_llrp_status(buf@),
    {
        let mut cur = Cursor::new(buf);
        if cur.remaining() < 4 {
            return Err(LlrpError::MalformedResponse);
        }
        let status_code = cur.u16();
        let error_desc = cur.u16();
        Ok(LLRPStatus { status_code, error_desc })
    }
}

/// The numbers of general-purpose input and output ports.
#[derive(Debug, Clone, Copy, PartialEq, Eq, Structural)]
pub struct GPIOCapabilities {
    pub num_gpi_ports: u16,
    pub num_gpo_ports: u16,
}

/// What the value of a `GPIOCapabilities` parameter holds: two 16-bit counts.
pub open spec fn spec_decode_gpio_capabilities(b: Seq<u8>) -> Result<GPIOCapabilities, LlrpError> {
    if b.len() < 4 {
        Err(LlrpError::MalformedResponse)
    } else {
        Ok(GPIOCapabilities { num_gpi_ports: u16_at(b, 0), num_gpo_ports: u16_at(b, 2) })
    }
}

impl GPIOCapabilities {
    /// Reads the value of a `GPIOCapabilities` parameter; `MalformedResponse`
    /// where it has fewer than 4 octets.
    pub fn decode(buf: &[u8]) -> (r: Result<GPIOCapabilities, LlrpError>)
        ensures
            r == spec_decode_gpio_capabilities(buf@),
    {
        let mut cur = Cursor::new(buf);
        if cur.remaining() < 4 {
            return Err(LlrpError::MalformedResponse);
        }
        let num_gpi_ports = cur.u16();
        let num_gpo_ports = cur.u16();
        Ok(GPIOCapabilities { num_gpi_ports, num_gpo_ports })
    }
}

/// One row of the table of transmit power levels.
#[derive(Debug, Clone, Copy, PartialEq, Eq, Structural)]
pub struct TransmitPowerLevelTableEntry {
    pub index: u16,
    pub transmit_power_value: u16,
}

/// What the value of a `TransmitPowerLevelTableEntry` parameter holds.
pub open spec fn spec_decode_transmit_power_level(b: Seq<u8>) -> Result<
    TransmitPowerLevelTableEntry,
    LlrpError,
> {
    if b.len() < 4 {
        Err(LlrpError::MalformedResponse)
    } else {
        Ok(TransmitPowerLevelTableEntry { index: u16_at(b, 0), transmit_power_value: u16_at(b, 2) })
    }
}

impl TransmitPowerLevelTableEntry {
    /// Reads the value of a `TransmitPowerLevelTableEntry` parameter;
    /// `MalformedResponse` where it has fewer than 4 octets.
    pub fn decode(buf: &[u8]) -> (r: Result<TransmitPowerLevelTableEntry, LlrpError>)
        ensures
            r == spec_decode_transmit_power_level(buf@),
    {
        let mut cur = Cursor::new(buf);
        if cur.remaining() < 4 {
            return Err(LlrpError::MalformedResponse);
        }
        let index = cur.u16();
        let transmit_power_value = cur.u16();
        Ok(TransmitPowerLevelTableEntry { index, transmit_power_value })
    }
}

/// One row of the table of receive sensitivities.
#[derive(Debug, Clone, Copy, PartialEq, Eq, Structural)]
pub struct ReceiveSensitivityTableEntry {
    pub index: u16,
    pub receive_sensitivity_value: i16,
}

/// What the value of a `ReceiveSensitivityTableEntry` parameter holds: a 16-bit
/// index and a signed 16-bit sensitivity.
pub open spec fn spec_decode_receive_sensitivity(b: Seq<u8>) -> Result<
    ReceiveSensitivityTableEntry,
    LlrpError,
> {
    if b.len() < 4 {
        Err(LlrpError::MalformedResponse)
    } else {
        Ok(
            ReceiveSensitivityTableEntry {
                index: u16_at(b, 0),
                receive_sensitivity_value: i16_from_be(b[2], b[3]),
            },
        )
    }
}

impl ReceiveSensitivityTableEntry {
    /// Reads the value of a `ReceiveSensitivityTableEntry` parameter;
    /// `MalformedResponse` where it has fewer than 4 octets.
    pub fn decode(buf: &[u8]) -> (r: Result<ReceiveSensitivityTableEntry, LlrpError>)
        ensures
            r == spec_decode_receive_sensitivity(buf@),
    {
        let mut cur = Cursor::new(buf);
        if cur.remaining() < 4 {
            return Err(LlrpError::MalformedResponse);
        }
        let index = cur.u16();
        let receive_sensitivity_value = cur.i16();
        Ok(ReceiveSensitivityTableEntry { index, receive_sensitivity_value })
    }
}

/// What the reader supports of the protocol itself.
#[derive(Debug, Clone, Copy, PartialEq, Eq, Structural)]
pub struct LLRPCapabilities {
    pub can_do_rfsurvey: bool,
    pub can_report_buffer_fill_warning: bool,
    pub supports_client_request_op_spec: bool,
    pub can_do_tag_inventory_state_aware_singulation: bool,
    pub supports_event_and_report_holding: bool,
    pub max_num_priority_levels_supported: u8,
    pub client_request_op_spec_timeout: u16,
    pub max_num_ro_specs: u32,
    pub max_num_specs_per_ro_spec: u32,
    pub max_num_inventory_parameter_specs_per_ai_spec: u32,
    pub max_num_access_specs: u32,
    pub max_num_op_specs_per_access_spec: u32,
}

/// What the value of an `LLRPCapabilities` parameter holds: an octet of five
/// flags from the high bit down, an 8-bit and a 16-bit field, and five 32-bit
/// limits.
pub open spec fn spec_decode_llrp_capabilities(b: Seq<u8>) -> Result<LLRPCapabilities, LlrpError> {
    if b.len() < 24 {
        Err(LlrpError::MalformedResponse)
    } else {
        Ok(
            LLRPCapabilities {
                can_do_rfsurvey: b[0] & 0x80 != 0,
                can_report_buffer_fill_warning: b[0] & 0x40 != 0,
                supports_client_request_op_spec: b[0] & 0x20 != 0,
                can_do_tag_inventory_state_aware_singulation: b[0] & 0x10 != 0,
                supports_event_and_report_holding: b[0] & 0x08 != 0,
                max_num_priority_levels_supported: b[1],
                client_request_op_spec_timeout: u16_at(b, 2),
                max_num_ro_specs: u32_at(b, 4),
                max_num_specs_per_ro_spec: u32_at(b, 8),
                max_num_inventory_parameter_specs_per_ai_spec: u32_at(b, 12),
                max_num_access_specs: u32_at(b, 16),
                max_num_op_specs_per_access_spec: u32_at(b, 20),
            },
        )
    }
}

impl LLRPCapabilities {
    /// Reads the value of an `LLRPCapabilities` parameter; `MalformedResponse`
    /// where it has fewer than 24 octets.
    pub fn decode(buf: &[u8]) -> (r: Result<LLRPCapabilities, LlrpError>)
        ensures
            r == spec_decode_llrp_capabilities(buf@),
    {
        let mut cur = Cursor::new(buf);
        if cur.remaining() < 24 {
            return Err(LlrpError::MalformedResponse);
        }
        let capabilities = cur.u8();
        let max_num_priority_levels_supported = cur.u8();
        let client_request_op_spec_timeout = cur.u16();
        let max_num_ro_specs = cur.u32();
        let max_num_specs_per_ro_spec = cur.u32();
        let max_num_inventory_parameter_specs_per_ai_spec = cur.u32();
        let max_num_access_specs = cur.u32();
        let max_num_op_specs_per_access_spec = cur.u32();
        Ok(
            LLRPCapabilities {
                can_do_rfsurvey: (capabilities & 0x80) != 0,
                can_report_buffer_fill_warning: (capabilities & 0x40) != 0,
                supports_client_request_op_spec: (capabilities & 0x20) != 0,
                can_do_tag_inventory_state_aware_singulation: (capabilities & 0x10) != 0,
                supports_event_and_report_holding: (capabilities & 0x08) != 0,
                max_num_priority_levels_supported,
                client_request_op_spec_timeout,
                max_num_ro_specs,
                max_num_specs_per_ro_spec,
                max_num_inventory_parameter_specs_per_ai_spec,
                max_num_access_specs,
                max_num_op_specs_per_access_spec,
            },
        )
    }
}

/// One RF mode of the C1G2 air protocol.
#[derive(Debug, Clone, Copy, PartialEq, Eq, Structural)]
pub struct C1G2UHFRFModeTableEntry {
    pub mode_identifier: u32,
    pub dr: bool,
    pub epc_hag_t_and_c_conformance: bool,
    pub m: u8,
    pub forward_link_modulation: u8,
    pub spectral_mask_indicator: u8,
    pub bdr: u32,
    pub pie: u32,
    pub min_tari: u32,
    pub max_tari: u32,
    pub tari_step: u32,
}

/// What the value of a `C1G2UHFRFModeTableEntry` parameter holds: a 32-bit mode
/// identifier, an octet of two flags from the high bit down, three 8-bit fields
/// and four 32-bit fields. The Tari step is not read and is 0.
pub open spec fn spec_decode_c1g2_uhf_rf_mode_table_entry(b: Seq<u8>) -> Result<
    C1G2UHFRFModeTableEntry,
    LlrpError,
> {
    if b.len() < 24 {
        Err(LlrpError::MalformedResponse)
    } else {
        Ok(
            C1G2UHFRFModeTableEntry {
                mode_identifier: u32_at(b, 0),
                dr: b[4] & 0x80 != 0,
                epc_hag_t_and_c_conformance: b[4] & 0x40 != 0,
                m: b[5],
                forward_link_modulation: b[6],
                spectral_mask_indicator: b[7],
                bdr: u32_at(b, 8),
                pie: u32_at(b, 12),
                min_tari: u32_at(b, 16),
                max_tari: u32_at(b, 20),
                tari_step: 0,
            },
        )
    }
}

impl C1G2UHFRFModeTableEntry {
    /// Reads the value of a `C1G2UHFRFModeTableEntry` parameter;
    /// `MalformedResponse` where it has fewer than the 24 octets that are read.
    pub fn decode(buf: &[u8]) -> (r: Result<C1G2UHFRFModeTableEntry, LlrpError>)
        ensures
            r == spec_decode_c1g2_uhf_rf_mode_table_entry(buf@),
    {
        let mut cur = Cursor::new(buf);
        if cur.remaining() < 24 {
            return Err(LlrpError::MalformedResponse);
        }
        let mode_identifier = cur.u32();
        let flags = cur.u8();
        let m = cur.u8();
        let forward_link_modulation = cur.u8();
        let spectral_mask_indicator = cur.u8();
        let bdr = cur.u32();
        let pie = cur.u32();
        let min_tari = cur.u32();
        let max_tari = cur.u32();
        Ok(
            C1G2UHFRFModeTableEntry {
                mode_identifier,
                dr: (flags & 0x80) != 0,
                epc_hag_t_and_c_conformance: (flags & 0x40) != 0,
                m,
                forward_link_modulation,
                spectral_mask_indicator,
                bdr,
                pie,
                min_tari,
                max_tari,
                tari_step: 0,
            },
        )
    }
}

/// What the reader supports of the C1G2 air protocol.
#[derive(Debug, Clone, Copy, PartialEq, Eq, Structural)]
pub struct C1G2LLRPCapabilities {
    pub supports_block_erase: bool,
    pub supports_block_write: bool,
    pub supports_block_permalock: bool,
    pub supports_tag_recommissioning: bool,
    pub supports_umi_method_2: bool,
    pub supports_xpc: bool,
    pub max_number_select_filters_per_query: u16,
}

/// What the value of a `C1G2LLRPCapabilities` parameter holds: an octet of six
/// flags from the high bit down, and a 16-bit limit.
pub open spec fn spec_decode_c1g2_llrp_capabilities(b: Seq<u8>) -> Result<
    C1G2LLRPCapabilities,
    LlrpError,
> {
    if b.len() < 3 {
        Err(LlrpError::MalformedResponse)
    } else {
        Ok(
            C1G2LLRPCapabilities {
                supports_block_erase: b[0] & 0x80 != 0,
                supports_block_write: b[0] & 0x40 != 0,
                supports_block_permalock: b[0] & 0x20 != 0,
                supports_tag_recommissioning: b[0] & 0x10 != 0,
                supports_umi_method_2: b[0] & 0x08 != 0,
                supports_xpc: b[0] & 0x04 != 0,
                max_number_select_filters_per_query: u16_at(b, 1),
            },
        )
    }
}

impl C1G2LLRPCapabilities {
    /// Reads the value of a `C1G2LLRPCapabilities` parameter; `MalformedResponse`
    /// where it has fewer than the 3 octets that are read.
    pub fn decode(buf: &[u8]) -> (r: Result<C1G2LLRPCapabilities, LlrpError>)
        ensures
            r == spec_decode_c1g2_llrp_capabilities(buf@),
    {
        let mut cur = Cursor::new(buf);
        if cur.remaining() < 3 {
            return Err(LlrpError::MalformedResponse);
        }
        let flags = cur.u8();
        let max_number_select_filters_per_query = cur.u16();
        Ok(
            C1G2LLRPCapabilities {
                supports_block_erase: (flags & 0x80) != 0,
                supports_block_write: (flags & 0x40) != 0,
                supports_block_permalock: (flags & 0x20) != 0,
                supports_tag_recommissioning: (flags & 0x10) != 0,
                supports_umi_method_2: (flags & 0x08) != 0,
                supports_xpc: (flags & 0x04) != 0,
                max_number_select_filters_per_query,
            },
        )
    }
}

/// The hexadecimal digit of a number under 16, in lower case; `f` for any other
/// number.
pub open spec fn spec_hex_digit(n: int) -> char {
    if n == 0 {
        '0'
    } else if n == 1 {
        '1'
    } else if n == 2 {
        '2'
    } else if n == 3 {
        '3'
    } else if n == 4 {
        '4'
    } else if n == 5 {
        '5'
    } else if n == 6 {
        '6'
    } else if n == 7 {
        '7'
    } else if n == 8 {
        '8'
    } else if n == 9 {
        '9'
    } else if n == 10 {
        'a'
    } else if n == 11 {
        'b'
    } else if n == 12 {
        'c'
    } else if n == 13 {
        'd'
    } else if n == 14 {
        'e'
    } else {
        'f'
    }
}

/// The bytes written out in hexadecimal, two lower-case digits for each.
pub open spec fn spec_hex(bytes: Seq<u8>) -> Seq<char> {
    Seq::new(
        2 * bytes.len(),
        |i: int|
            if i % 2 == 0 {
                spec_hex_digit(bytes[i / 2] as int / 16)
            } else {
                spec_hex_digit(bytes[i / 2] as int % 16)
            },
    )
}

/// The hexadecimal digit of a number under 16, in lower case; `f` for any greater
/// number.
pub fn hex_digit(n: u8) -> (digit: &'static str)
    ensures
        digit@ == seq![spec_hex_digit(n as int)],
{
    match n {
        0 => {
            proof {
                reveal_strlit("0");
            }
            "0"
        },
        1 => {
            proof {
                reveal_strlit("1");
            }
            "1"
        },
        2 => {
            proof {
                reveal_strlit("2");
            }
            "2"
        },
        3 => {
            proof {
                reveal_strlit("3");
            }
            "3"
        },
        4 => {
            proof {
                reveal_strlit("4");
            }
            "4"
        },
        5 => {
            proof {
                reveal_strlit("5");
            }
            "5"
        },
        6 => {
            proof {
                reveal_strlit("6");
            }
            "6"
        },
        7 => {
            proof {
                reveal_strlit("7");
            }
            "7"
        },
        8 => {
            proof {
                reveal_strlit("8");
            }
            "8"
        },
        9 => {
            proof {
                reveal_strlit("9");
            }
            "9"
        },
        10 => {
            proof {
                reveal_strlit("a");
            }
            "a"
        },
        11 => {
            proof {
                reveal_strlit("b");
            }
            "b"
        },
        12 => {
            proof {
                reveal_strlit("c");
            }
            "c"
        },
        13 => {
            proof {
                reveal_strlit("d");
            }
            "d"
        },
        14 => {
            proof {
                reveal_strlit("e");
            }
            "e"
        },
        _ => {
            proof {
                reveal_strlit("f");
            }
            "f"
        },
    }
}

/// The bytes written out in hexadecimal, two lower-case digits for each.
pub fn hex_string(bytes: &[u8]) -> (s: String)
    ensures
        s@ == spec_hex(bytes@),
{
    let mut s = String::new();
    let mut i: usize = 0;
    while i < bytes.len()
        invariant
            i <= bytes@.len(),
            s@ == spec_hex(bytes@.take(i as int)),
        decreases bytes@.len() - i,
    {
        let b: u8 = bytes[i];
        s.append(hex_digit(b / 16));
        s.append(hex_digit(b % 16));
        i = i + 1;
    }
    s
}

/// An EPC as an `EPCData` or an `EPC96` parameter carries it.
#[derive(Debug, Clone, PartialEq, Eq)]
pub struct EPCData {
    pub epc: Vec<u8>,
}

impl View for EPCData {
    type V = Seq<u8>;

    open spec fn view(&self) -> Seq<u8> {
        self.epc@
    }
}

/// The number of octets that hold `bits` bits.
pub open spec fn spec_octets_for_bits(bits: u16) -> int {
    (bits + 7) / 8
}

/// What the value of an `EPCData` parameter holds: a 16-bit count of bits, then
/// the EPC in as many octets as hold that many bits.
pub open spec fn spec_decode_epc_data(b: Seq<u8>) -> Result<Seq<u8>, LlrpError> {
    if b.len() < 2 {
        Err(LlrpError::MalformedResponse)
    } else if b.len() - 2 < spec_octets_for_bits(u16_at(b, 0)) {
        Err(LlrpError::MalformedResponse)
    } else {
        Ok(b.subrange(2, 2 + spec_octets_for_bits(u16_at(b, 0))))
    }
}

/// What the value of an `EPC96` parameter holds: the twelve octets of the EPC.
pub open spec fn spec_decode_epc96(b: Seq<u8>) -> Result<Seq<u8>, LlrpError> {
    if b.len() != 12 {
        Err(LlrpError::MalformedResponse)
    } else {
        Ok(b)
    }
}

impl EPCData {
    /// Reads the value of an `EPCData` parameter; `MalformedResponse` where the
    /// count or the EPC is cut short.
    pub fn decode(buf: &[u8]) -> (r: Result<EPCData, LlrpError>)
        ensures
            result_view(r) == spec_decode_epc_data(buf@),
    {
        let mut cur = Cursor::new(buf);
        if cur.remaining() < 2 {
            return Err(LlrpError::MalformedResponse);
        }
        let bit_field_length: u16 = cur.u16();
        let epc_byte_length: usize = (bit_field_length as usize + 7) / 8;
        if cur.remaining() < epc_byte_length {
            return Err(LlrpError::MalformedResponse);
        }
        let epc = cur.bytes(epc_byte_length);
        Ok(EPCData { epc })
    }

    /// Reads the value of an `EPC96` parameter; `MalformedResponse` unless it
    /// has exactly 12 octets.
    pub fn decode_epc96(buf: &[u8]) -> (r: Result<EPCData, LlrpError>)
        ensures
            result_view(r) == spec_decode_epc96(buf@),
    {
        if buf.len() != 12 {
            return Err(LlrpError::MalformedResponse);
        }
        let epc = slice_to_vec(buf);
        Ok(EPCData { epc })
    }

    /// The EPC in hexadecimal, two lower-case digits for each octet.
    pub fn to_string(&self) -> (s: String)
        ensures
            s@ == spec_hex(self@),
    {
        hex_string(self.epc.as_slice())
    }
}

/// How the reader identifies itself.
#[derive(Debug, Clone, PartialEq, Eq)]
pub struct Identification {
    /// 0 for a MAC address, 1 for an EPC.
    pub id_type: u8,
    pub reader_id: Vec<u8>,
}

/// An `Identification` with its identifier as a sequence.
pub struct IdentificationView {
    pub id_type: u8,
    pub reader_id: Seq<u8>,
}

impl View for Identification {
    type V = IdentificationView;

    open spec fn view(&self) -> IdentificationView {
        IdentificationView { id_type: self.id_type, reader_id: self.reader_id@ }
    }
}

/// What the value of an `Identification` parameter holds: one octet for the type
/// of identifier, then the identifier. A MAC address (type 0) has at least 8
/// octets; an EPC (type 1) and an identifier of any other type can have any
/// number.
pub open spec fn spec_decode_identification(b: Seq<u8>) -> Result<IdentificationView, LlrpError> {
    if b.len() < 1 {
        Err(LlrpError::MalformedResponse)
    } else if b[0] == 0 && b.len() - 1 < 8 {
        Err(LlrpError::MalformedResponse)
    } else {
        Ok(IdentificationView { id_type: b[0], reader_id: b.skip(1) })
    }
}

impl Identification {
    /// Reads the value of an `Identification` parameter; `MalformedResponse`
    /// where it is empty, or holds a MAC address of fewer than 8 octets.
    pub fn decode(buf: &[u8]) -> (r: Result<Identification, LlrpError>)
        ensures
            result_view(r) == spec_decode_identification(buf@),
    {
        if buf.len() < 1 {
            return Err(LlrpError::MalformedResponse);
        }
        let id_type: u8 = buf[0];
        let reader_id = slice_to_vec(slice_subrange(buf, 1, buf.len()));
        if id_type == 0 && reader_id.len() < 8 {
            return Err(LlrpError::MalformedResponse);
        }
        Ok(Identification { id_type, reader_id })
    }
}

/// The air protocols that one antenna supports.
#[derive(Debug, Clone, PartialEq, Eq)]
pub struct AntennaAirProtocol {
    pub antenna_id: u16,
    pub protocol_ids: Vec<u8>,
}

/// An `AntennaAirProtocol` with its protocols as a sequence.
pub struct AntennaAirProtocolView {
    pub antenna_id: u16,
    pub protocol_ids: Seq<u8>,
}

impl View for AntennaAirProtocol {
    type V = AntennaAirProtocolView;

    open spec fn view(&self) -> AntennaAirProtocolView {
        AntennaAirProtocolView { antenna_id: self.antenna_id, protocol_ids: self.protocol_ids@ }
    }
}

/// What the value of a `PerAntennaAirProtocol` parameter holds: a 16-bit antenna
/// id, an 8-bit count, and one octet for each protocol counted.
pub open spec fn spec_decode_antenna_air_protocol(b: Seq<u8>) -> Result<
    AntennaAirProtocolView,
    LlrpError,
> {
    if b.len() < 3 {
        Err(LlrpError::MalformedResponse)
    } else if b.len() - 3 < b[2] {
        Err(LlrpError::MalformedResponse)
    } else {
        Ok(
            AntennaAirProtocolView {
                antenna_id: u16_at(b, 0),
                protocol_ids: b.subrange(3, 3 + b[2]),
            },
        )
    }
}

impl AntennaAirProtocol {
    /// Reads the value of a `PerAntennaAirProtocol` parameter; `MalformedResponse`
    /// where the header or the list of protocols is cut short.
    pub fn decode(buf: &[u8]) -> (r: Result<AntennaAirProtocol, LlrpError>)
        ensures
            result_view(r) == spec_decode_antenna_air_protocol(buf@),
    {
        let mut cur = Cursor::new(buf);
        if cur.remaining() < 3 {
            return Err(LlrpError::MalformedResponse);
        }
        let antenna_id = cur.u16();
        let num_protocols: u8 = cur.u8();

        let mut protocol_ids: Vec<u8> = Vec::new();
        let mut i: u8 = 0;
        while i < num_protocols
            invariant
                cur.wf(),
                cur.source() == buf@,
                cur.position() == 3 + i,
                i <= num_protocols,
                3 + i <= buf@.len(),
                num_protocols == buf@[2],
                antenna_id == u16_at(buf@, 0),
                protocol_ids@ == buf@.subrange(3, 3 + i),
            decreases num_protocols - i,
        {
            if cur.remaining() < 1 {
                return Err(LlrpError::MalformedResponse);
            }
            let protocol_id = cur.u8();
            protocol_ids.push(protocol_id);
            i = i + 1;
        }
        Ok(AntennaAirProtocol { antenna_id, protocol_ids })
    }
}

/// The `count` 32-bit values that `b` holds from offset `at` on.
pub open spec fn spec_u32_list(b: Seq<u8>, at: int, count: int) -> Seq<u32> {
    Seq::new(count as nat, |i: int| u32_at(b, at + 4 * i))
}

/// Reads `count` 32-bit values.
fn read_u32_list(cur: &mut Cursor, count: u16) -> (list: Vec<u32>)
    requires
        old(cur).wf(),
        old(cur).position() + 4 * count <= old(cur).source().len(),
    ensures
        final(cur).wf(),
        final(cur).source() == old(cur).source(),
        final(cur).position() == old(cur).position() + 4 * count,
        list@ == spec_u32_list(old(cur).source(), old(cur).position(), count as int),
{
    let ghost start = cur.position();
    let ghost src = cur.source();
    let mut list: Vec<u32> = Vec::new();
    let mut i: u16 = 0;
    while i < count
        invariant
            cur.wf(),
            cur.source() == src,
            cur.position() == start + 4 * i,
            start + 4 * count <= src.len(),
            i <= count,
            list@ == spec_u32_list(src, start, i as int),
        decreases count - i,
    {
        let frequency = cur.u32();
        list.push(frequency);
        i = i + 1;
    }
    list
}

/// One table of frequencies to hop over.
#[derive(Debug, Clone, PartialEq, Eq)]
pub struct FrequencyHopTable {
    pub hop_table_id: u16,
    pub number_of_hops: u16,
    pub frequencies: Vec<u32>,
}

/// A `FrequencyHopTable` with its frequencies as a sequence.
pub struct FrequencyHopTableView {
    pub hop_table_id: u16,
    pub number_of_hops: u16,
    pub frequencies: Seq<u32>,
}

impl View for FrequencyHopTable {
    type V = FrequencyHopTableView;

    open spec fn view(&self) -> FrequencyHopTableView {
        FrequencyHopTableView {
            hop_table_id: self.hop_table_id,
            number_of_hops: self.number_of_hops,
            frequencies: self.frequencies@,
        }
    }
}

/// What the value of a `FrequencyHopTable` parameter holds: three 16-bit fields,
/// the last of which counts the 32-bit frequencies that follow.
pub open spec fn spec_decode_frequency_hop_table(b: Seq<u8>) -> Result<
    FrequencyHopTableView,
    LlrpError,
> {
    if b.len() < 6 {
        Err(LlrpError::MalformedResponse)
    } else if b.len() - 6 < 4 * u16_at(b, 4) {
        Err(LlrpError::MalformedResponse)
    } else {
        Ok(
            FrequencyHopTableView {
                hop_table_id: u16_at(b, 0),
                number_of_hops: u16_at(b, 2),
                frequencies: spec_u32_list(b, 6, u16_at(b, 4) as int),
            },
        )
    }
}

impl FrequencyHopTable {
    /// Reads the value of a `FrequencyHopTable` parameter; `MalformedResponse`
    /// where the 6 octets of the header or the frequencies are cut short.
    pub fn decode(buf: &[u8]) -> (r: Result<FrequencyHopTable, LlrpError>)
        ensures
            result_view(r) == spec_decode_frequency_hop_table(buf@),
    {
        let mut cur = Cursor::new(buf);
        if cur.remaining() < 6 {
            return Err(LlrpError::MalformedResponse);
        }
        let hop_table_id = cur.u16();
        let number_of_hops = cur.u16();
        let num_frequencies: u16 = cur.u16();
        let frequencies_size: usize = num_frequencies as usize * 4;
        if cur.remaining() < frequencies_size {
            return Err(LlrpError::MalformedResponse);
        }
        let frequencies = read_u32_list(&mut cur, num_frequencies);
        Ok(FrequencyHopTable { hop_table_id, number_of_hops, frequencies })
    }
}

/// The table of fixed frequencies.
#[derive(Debug, Clone, PartialEq, Eq)]
pub struct FixedFrequencyTable {
    pub frequencies: Vec<u32>,
}

impl View for FixedFrequencyTable {
    type V = Seq<u32>;

    open spec fn view(&self) -> Seq<u32> {
        self.frequencies@
    }
}

/// What the value of a `FixedFrequencyTable` parameter holds: a 16-bit count and
/// as many 32-bit frequencies.
pub open spec fn spec_decode_fixed_frequency_table(b: Seq<u8>) -> Result<Seq<u32>, LlrpError> {
    if b.len() < 2 {
        Err(LlrpError::MalformedResponse)
    } else if b.len() - 2 < 4 * u16_at(b, 0) {
        Err(LlrpError::MalformedResponse)
    } else {
        Ok(spec_u32_list(b, 2, u16_at(b, 0) as int))
    }
}

impl FixedFrequencyTable {
    /// Reads the value of a `FixedFrequencyTable` parameter; `MalformedResponse`
    /// where the count or the frequencies are cut short.
    pub fn decode(buf: &[u8]) -> (r: Result<FixedFrequencyTable, LlrpError>)
        ensures
            result_view(r) == spec_decode_fixed_frequency_table(buf@),
    {
        let mut cur = Cursor::new(buf);
        if cur.remaining() < 2 {
            return Err(LlrpError::MalformedResponse);
        }
        let num_frequencies: u16 = cur.u16();
        let frequencies_size: usize = num_frequencies as usize * 4;
        if cur.remaining() < frequencies_size {
            return Err(LlrpError::MalformedResponse);
        }
        let frequencies = read_u32_list(&mut cur, num_frequencies);
        Ok(FixedFrequencyTable { frequencies })
    }
}

/// The RF modes of the C1G2 air protocol.
#[derive(Debug, Clone, PartialEq, Eq)]
pub struct C1G2UHFRFModeTable {
    pub entries: Vec<C1G2UHFRFModeTableEntry>,
}

impl View for C1G2UHFRFModeTable {
    type V = Seq<C1G2UHFRFModeTableEntry>;

    open spec fn view(&self) -> Seq<C1G2UHFRFModeTableEntry> {
        self.entries@
    }
}

/// The entries read so far, with the one that `p` holds if it is an entry.
pub open spec fn spec_c1g2_uhf_rf_mode_table_step(
    acc: Seq<C1G2UHFRFModeTableEntry>,
    p: ParameterView,
) -> Result<Seq<C1G2UHFRFModeTableEntry>, LlrpError> {
    if p.param_type == LlrpParameterType::C1G2UHFRFModeTableEntry {
        match spec_decode_c1g2_uhf_rf_mode_table_entry(p.param_value) {
            Ok(entry) => Ok(acc.push(entry)),
            Err(e) => Err(e),
        }
    } else {
        Ok(acc)
    }
}

/// The entries `acc` with those that the parameters of `ps` from the `i`-th on
/// add, or the error of the first of them that cannot be read.
pub open spec fn spec_c1g2_uhf_rf_mode_table_from(
    ps: Seq<ParameterView>,
    i: int,
    acc: Seq<C1G2UHFRFModeTableEntry>,
) -> Result<Seq<C1G2UHFRFModeTableEntry>, LlrpError>
    decreases ps.len() - i,
{
    if i < 0 || i >= ps.len() {
        Ok(acc)
    } else {
        match spec_c1g2_uhf_rf_mode_table_step(acc, ps[i]) {
            Err(e) => Err(e),
            Ok(next) => spec_c1g2_uhf_rf_mode_table_from(ps, i + 1, next),
        }
    }
}

/// What the value of a `C1G2UHFRFModeTable` parameter holds: a list of
/// parameters, of which the entries count, in order.
pub open spec fn spec_decode_c1g2_uhf_rf_mode_table(b: Seq<u8>) -> Result<
    Seq<C1G2UHFRFModeTableEntry>,
    LlrpError,
> {
    match spec_parse_parameters(b) {
        Err(e) => Err(e),
        Ok(ps) => spec_c1g2_uhf_rf_mode_table_from(ps, 0, Seq::empty()),
    }
}

impl C1G2UHFRFModeTable {
    /// Reads the value of a `C1G2UHFRFModeTable` parameter: its entries in order,
    /// other parameters skipped. It fails with the error of the parameter list,
    /// or of the first entry that cannot be read.
    pub fn decode(buf: &[u8]) -> (r: Result<C1G2UHFRFModeTable, LlrpError>)
        ensures
            result_view(r) == spec_decode_c1g2_uhf_rf_mode_table(buf@),
    {
        let cur = Cursor::new(buf);
        assert(buf@.skip(0) =~= buf@);
        let sub_parameters = match parse_parameters(cur.rest()) {
            Ok(v) => v,
            Err(e) => {
                return Err(e);
            },
        };
        let ghost ps = seq_views(sub_parameters@);

        let mut entries: Vec<C1G2UHFRFModeTableEntry> = Vec::new();
        let mut i: usize = 0;
        while i < sub_parameters.len()
            invariant
                i <= sub_parameters@.len(),
                ps == seq_views(sub_parameters@),
                spec_decode_c1g2_uhf_rf_mode_table(buf@) == spec_c1g2_uhf_rf_mode_table_from(
                    ps,
                    i as int,
                    entries@,
                ),
            decreases sub_parameters@.len() - i,
        {
            let param = &sub_parameters[i];
            if param.param_type == LlrpParameterType::C1G2UHFRFModeTableEntry {
                match C1G2UHFRFModeTableEntry::decode(param.param_value.as_slice()) {
                    Ok(entry) => {
                        entries.push(entry);
                    },
                    Err(e) => {
                        return Err(e);
                    },
                }
            }
            i = i + 1;
        }
        Ok(C1G2UHFRFModeTable { entries })
    }
}

/// The frequencies that the reader can use.
#[derive(Debug, Clone, PartialEq, Eq)]
pub struct FrequencyInformation {
    pub hopping: bool,
    pub frequency_hop_tables: Vec<FrequencyHopTable>,
    pub fixed_frequency_table: Option<FixedFrequencyTable>,
}

/// A `FrequencyInformation` with its tables as sequences.
pub struct FrequencyInformationView {
    pub hopping: bool,
    pub frequency_hop_tables: Seq<FrequencyHopTableView>,
    pub fixed_frequency_table: Option<Seq<u32>>,
}

impl View for FrequencyInformation {
    type V = FrequencyInformationView;

    open spec fn view(&self) -> FrequencyInformationView {
        FrequencyInformationView {
            hopping: self.hopping,
            frequency_hop_tables: seq_views(self.frequency_hop_tables@),
            fixed_frequency_table: option_view(self.fixed_frequency_table),
        }
    }
}

/// What `p` adds to the frequency information read so far: a hop table is
/// appended, a fixed table takes the place of an earlier one, anything else is
/// skipped.
pub open spec fn spec_frequency_information_step(
    acc: FrequencyInformationView,
    p: ParameterView,
) -> Result<FrequencyInformationView, LlrpError> {
    match p.param_type {
        LlrpParameterType::FrequencyHopTable => match spec_decode_frequency_hop_table(
            p.param_value,
        ) {
            Ok(table) => Ok(
                FrequencyInformationView {
                    frequency_hop_tables: acc.frequency_hop_tables.push(table),
                    ..acc
                },
            ),
            Err(e) => Err(e),
        },
        LlrpParameterType::FixedFrequencyTable => match spec_decode_fixed_frequency_table(
            p.param_value,
        ) {
            Ok(table) => Ok(FrequencyInformationView { fixed_frequency_table: Some(table), ..acc }),
            Err(e) => Err(e),
        },
        _ => Ok(acc),
    }
}

/// `acc` with what the parameters of `ps` from the `i`-th on add, or the error of
/// the first of them that cannot be read.
pub open spec fn spec_frequency_information_from(
    ps: Seq<ParameterView>,
    i: int,
    acc: FrequencyInformationView,
) -> Result<FrequencyInformationView, LlrpError>
    decreases ps.len() - i,
{
    if i < 0 || i >= ps.len() {
        Ok(acc)
    } else {
        match spec_frequency_information_step(acc, ps[i]) {
            Err(e) => Err(e),
            Ok(next) => spec_frequency_information_from(ps, i + 1, next),
        }
    }
}

/// What the value of a `FrequencyInformation` parameter holds: one octet that is
/// not 0 where the reader hops, then a list of parameters.
pub open spec fn spec_decode_frequency_information(b: Seq<u8>) -> Result<
    FrequencyInformationView,
    LlrpError,
> {
    if b.len() < 1 {
        Err(LlrpError::MalformedResponse)
    } else {
        match spec_parse_parameters(b.skip(1)) {
            Err(e) => Err(e),
            Ok(ps) => spec_frequency_information_from(
                ps,
                0,
                FrequencyInformationView {
                    hopping: b[0] != 0,
                    frequency_hop_tables: Seq::empty(),
                    fixed_frequency_table: None,
                },
            ),
        }
    }
}

impl FrequencyInformation {
    /// Reads the value of a `FrequencyInformation` parameter. It fails with
    /// `MalformedResponse` where the value is empty, else with the error of the
    /// parameter list or of the first table that cannot be read.
    pub fn decode(buf: &[u8]) -> (r: Result<FrequencyInformation, LlrpError>)
        ensures
            result_view(r) == spec_decode_frequency_information(buf@),
    {
        let mut cur = Cursor::new(buf);
        if cur.remaining() < 1 {
            return Err(LlrpError::MalformedResponse);
        }
        let hop_flag: u8 = cur.u8();
        let hopping: bool = hop_flag != 0;

        let sub_parameters = match parse_parameters(cur.rest()) {
            Ok(v) => v,
            Err(e) => {
                return Err(e);
            },
        };
        let ghost ps = seq_views(sub_parameters@);

        let mut frequency_hop_tables: Vec<FrequencyHopTable> = Vec::new();
        let mut fixed_frequency_table: Option<FixedFrequencyTable> = None;
        assert(seq_views(frequency_hop_tables@) =~= Seq::<FrequencyHopTableView>::empty());

        let mut i: usize = 0;
        while i < sub_parameters.len()
            invariant
                i <= sub_parameters@.len(),
                ps == seq_views(sub_parameters@),
                spec_decode_frequency_information(buf@) == spec_frequency_information_from(
                    ps,
                    i as int,
                    FrequencyInformationView {
                        hopping,
                        frequency_hop_tables: seq_views(frequency_hop_tables@),
                        fixed_frequency_table: option_view(fixed_frequency_table),
                    },
                ),
            decreases sub_parameters@.len() - i,
        {
            let param = &sub_parameters[i];
            match param.param_type {
                LlrpParameterType::FrequencyHopTable => {
                    match FrequencyHopTable::decode(param.param_value.as_slice()) {
                        Ok(table) => {
                            proof {
                                lemma_seq_views_push(frequency_hop_tables@, table);
                            }
                            frequency_hop_tables.push(table);
                        },
                        Err(e) => {
                            return Err(e);
                        },
                    }
                },
                LlrpParameterType::FixedFrequencyTable => {
                    match FixedFrequencyTable::decode(param.param_value.as_slice()) {
                        Ok(table) => {
                            fixed_frequency_table = Some(table);
                        },
                        Err(e) => {
                            return Err(e);
                        },
                    }
                },
                _ => {},
            }
            i = i + 1;
        }
        Ok(FrequencyInformation { hopping, frequency_hop_tables, fixed_frequency_table })
    }
}

/// What the reader can do in the UHF band.
#[derive(Debug, Clone, PartialEq, Eq)]
pub struct UHFBandCapabilities {
    pub transmit_power_levels: Vec<TransmitPowerLevelTableEntry>,
    pub frequency_information: Option<FrequencyInformation>,
    pub c1g2_uhf_rf_mode_table: Option<C1G2UHFRFModeTable>,
}

/// A `UHFBandCapabilities` with its tables as sequences.
pub struct UHFBandCapabilitiesView {
    pub transmit_power_levels: Seq<TransmitPowerLevelTableEntry>,
    pub frequency_information: Option<FrequencyInformationView>,
    pub c1g2_uhf_rf_mode_table: Option<Seq<C1G2UHFRFModeTableEntry>>,
}

impl View for UHFBandCapabilities {
    type V = UHFBandCapabilitiesView;

    open spec fn view(&self) -> UHFBandCapabilitiesView {
        UHFBandCapabilitiesView {
            transmit_power_levels: self.transmit_power_levels@,
            frequency_information: option_view(self.frequency_information),
            c1g2_uhf_rf_mode_table: option_view(self.c1g2_uhf_rf_mode_table),
        }
    }
}

/// What `p` adds to the UHF band capabilities read so far: a power level is
/// appended, frequency information or a mode table takes the place of an
/// earlier one, anything else is skipped.
pub open spec fn spec_uhf_band_capabilities_step(
    acc: UHFBandCapabilitiesView,
    p: ParameterView,
) -> Result<UHFBandCapabilitiesView, LlrpError> {
    match p.param_type {
        LlrpParameterType::TransmitPowerLevelTableEntry => match spec_decode_transmit_power_level(
            p.param_value,
        ) {
            Ok(entry) => Ok(
                UHFBandCapabilitiesView {
                    transmit_power_levels: acc.transmit_power_levels.push(entry),
                    ..acc
                },
            ),
            Err(e) => Err(e),
        },
        LlrpParameterType::FrequencyInformation => match spec_decode_frequency_information(
            p.param_value,
        ) {
            Ok(info) => Ok(UHFBandCapabilitiesView { frequency_information: Some(info), ..acc }),
            Err(e) => Err(e),
        },
        LlrpParameterType::C1G2UHFRFModeTable => match spec_decode_c1g2_uhf_rf_mode_table(
            p.param_value,
        ) {
            Ok(table) => Ok(UHFBandCapabilitiesView { c1g2_uhf_rf_mode_table: Some(table), ..acc }),
            Err(e) => Err(e),
        },
        _ => Ok(acc),
    }
}

/// `acc` with what the parameters of `ps` from the `i`-th on add, or the error of
/// the first of them that cannot be read.
pub open spec fn spec_uhf_band_capabilities_from(
    ps: Seq<ParameterView>,
    i: int,
    acc: UHFBandCapabilitiesView,
) -> Result<UHFBandCapabilitiesView, LlrpError>
    decreases ps.len() - i,
{
    if i < 0 || i >= ps.len() {
        Ok(acc)
    } else {
        match spec_uhf_band_capabilities_step(acc, ps[i]) {
            Err(e) => Err(e),
            Ok(next) => spec_uhf_band_capabilities_from(ps, i + 1, next),
        }
    }
}

/// What the value of a `UHFBandCapabilities` parameter holds: a list of
/// parameters.
pub open spec fn spec_decode_uhf_band_capabilities(b: Seq<u8>) -> Result<
    UHFBandCapabilitiesView,
    LlrpError,
> {
    match spec_parse_parameters(b) {
        Err(e) => Err(e),
        Ok(ps) => spec_uhf_band_capabilities_from(
            ps,
            0,
            UHFBandCapabilitiesView {
                transmit_power_levels: Seq::empty(),
                frequency_information: None,
                c1g2_uhf_rf_mode_table: None,
            },
        ),
    }
}

impl UHFBandCapabilities {
    /// Reads the value of a `UHFBandCapabilities` parameter. It fails with the
    /// error of the parameter list, or of the first parameter in it that cannot
    /// be read.
    pub fn decode(buf: &[u8]) -> (r: Result<UHFBandCapabilities, LlrpError>)
        ensures
            result_view(r) == spec_decode_uhf_band_capabilities(buf@),
    {
        let cur = Cursor::new(buf);
        assert(buf@.skip(0) =~= buf@);
        let sub_parameters = match parse_parameters(cur.rest()) {
            Ok(v) => v,
            Err(e) => {
                return Err(e);
            },
        };
        let ghost ps = seq_views(sub_parameters@);

        let mut transmit_power_levels: Vec<TransmitPowerLevelTableEntry> = Vec::new();
        let mut frequency_information: Option<FrequencyInformation> = None;
        let mut c1g2_uhf_rf_mode_table: Option<C1G2UHFRFModeTable> = None;

        let mut i: usize = 0;
        while i < sub_parameters.len()
            invariant
                i <= sub_parameters@.len(),
                ps == seq_views(sub_parameters@),
                spec_decode_uhf_band_capabilities(buf@) == spec_uhf_band_capabilities_from(
                    ps,
                    i as int,
                    UHFBandCapabilitiesView {
                        transmit_power_levels: transmit_power_levels@,
                        frequency_information: option_view(frequency_information),
                        c1g2_uhf_rf_mode_table: option_view(c1g2_uhf_rf_mode_table),
                    },
                ),
            decreases sub_parameters@.len() - i,
        {
            let param = &sub_parameters[i];
            match param.param_type {
                LlrpParameterType::TransmitPowerLevelTableEntry => {
                    match TransmitPowerLevelTableEntry::decode(param.param_value.as_slice()) {
                        Ok(entry) => {
                            transmit_power_levels.push(entry);
                        },
                        Err(e) => {
                            return Err(e);
                        },
                    }
                },
                LlrpParameterType::FrequencyInformation => {
                    match FrequencyInformation::decode(param.param_value.as_slice()) {
                        Ok(info) => {
                            frequency_information = Some(info);
                        },
                        Err(e) => {
                            return Err(e);
                        },
                    }
                },
                LlrpParameterType::C1G2UHFRFModeTable => {
                    match C1G2UHFRFModeTable::decode(param.param_value.as_slice()) {
                        Ok(table) => {
                            c1g2_uhf_rf_mode_table = Some(table);
                        },
                        Err(e) => {
                            return Err(e);
                        },
                    }
                },
                _ => {},
            }
            i = i + 1;
        }
        Ok(UHFBandCapabilities { transmit_power_levels, frequency_information, c1g2_uhf_rf_mode_table })
    }
}

/// The regulations that the reader works under.
#[derive(Debug, Clone, PartialEq, Eq)]
pub struct RegulatoryCapabilities {
    pub country_code: u16,
    pub communications_standard: u16,
    pub uhf_band_capabilities: Option<UHFBandCapabilities>,
}

/// A `RegulatoryCapabilities` with its tables as sequences.
pub struct RegulatoryCapabilitiesView {
    pub country_code: u16,
    pub communications_standard: u16,
    pub uhf_band_capabilities: Option<UHFBandCapabilitiesView>,
}

impl View for RegulatoryCapabilities {
    type V = RegulatoryCapabilitiesView;

    open spec fn view(&self) -> RegulatoryCapabilitiesView {
        RegulatoryCapabilitiesView {
            country_code: self.country_code,
            communications_standard: self.communications_standard,
            uhf_band_capabilities: option_view(self.uhf_band_capabilities),
        }
    }
}

/// What `p` adds to the regulatory capabilities read so far: UHF band
/// capabilities take the place of earlier ones, anything else is skipped.
pub open spec fn spec_regulatory_capabilities_step(
    acc: RegulatoryCapabilitiesView,
    p: ParameterView,
) -> Result<RegulatoryCapabilitiesView, LlrpError> {
    match p.param_type {
        LlrpParameterType::UHFBandCapabilities => match spec_decode_uhf_band_capabilities(
            p.param_value,
        ) {
            Ok(caps) => Ok(RegulatoryCapabilitiesView { uhf_band_capabilities: Some(caps), ..acc }),
            Err(e) => Err(e),
        },
        _ => Ok(acc),
    }
}

/// `acc` with what the parameters of `ps` from the `i`-th on add, or the error of
/// the first of them that cannot be read.
pub open spec fn spec_regulatory_capabilities_from(
    ps: Seq<ParameterView>,
    i: int,
    acc: RegulatoryCapabilitiesView,
) -> Result<RegulatoryCapabilitiesView, LlrpError>
    decreases ps.len() - i,
{
    if i < 0 || i >= ps.len() {
        Ok(acc)
    } else {
        match spec_regulatory_capabilities_step(acc, ps[i]) {
            Err(e) => Err(e),
            Ok(next) => spec_regulatory_capabilities_from(ps, i + 1, next),
        }
    }
}

/// What the value of a `RegulatoryCapabilities` parameter holds: a 16-bit country
/// code, a 16-bit communications standard, then a list of parameters.
pub open spec fn spec_decode_regulatory_capabilities(b: Seq<u8>) -> Result<
    RegulatoryCapabilitiesView,
    LlrpError,
> {
    if b.len() < 4 {
        Err(LlrpError::MalformedResponse)
    } else {
        match spec_parse_parameters(b.skip(4)) {
            Err(e) => Err(e),
            Ok(ps) => spec_regulatory_capabilities_from(
                ps,
                0,
                RegulatoryCapabilitiesView {
                    country_code: u16_at(b, 0),
                    communications_standard: u16_at(b, 2),
                    uhf_band_capabilities: None,
                },
            ),
        }
    }
}

impl RegulatoryCapabilities {
    /// Reads the value of a `RegulatoryCapabilities` parameter. It fails with
    /// `MalformedResponse` where the value has fewer than 4 octets, else with the
    /// error of the parameter list or of the first parameter in it that cannot
    /// be read.
    pub fn decode(buf: &[u8]) -> (r: Result<RegulatoryCapabilities, LlrpError>)
        ensures
            result_view(r) == spec_decode_regulatory_capabilities(buf@),
    {
        let mut cur = Cursor::new(buf);
        if cur.remaining() < 4 {
            return Err(LlrpError::MalformedResponse);
        }
        let country_code = cur.u16();
        let communications_standard = cur.u16();

        let sub_parameters = match parse_parameters(cur.rest()) {
            Ok(v) => v,
            Err(e) => {
                return Err(e);
            },
        };
        let ghost ps = seq_views(sub_parameters@);

        let mut uhf_band_capabilities: Option<UHFBandCapabilities> = None;

        let mut i: usize = 0;
        while i < sub_parameters.len()
            invariant
                i <= sub_parameters@.len(),
                ps == seq_views(sub_parameters@),
                spec_decode_regulatory_capabilities(buf@) == spec_regulatory_capabilities_from(
                    ps,
                    i as int,
                    RegulatoryCapabilitiesView {
                        country_code,
                        communications_standard,
                        uhf_band_capabilities: option_view(uhf_band_capabilities),
                    },
                ),
            decreases sub_parameters@.len() - i,
        {
            let param = &sub_parameters[i];
            match param.param_type {
                LlrpParameterType::UHFBandCapabilities => {
                    match UHFBandCapabilities::decode(param.param_value.as_slice()) {
                        Ok(caps) => {
                            uhf_band_capabilities = Some(caps);
                        },
                        Err(e) => {
                            return Err(e);
                        },
                    }
                },
                _ => {},
            }
            i = i + 1;
        }
        Ok(RegulatoryCapabilities { country_code, communications_standard, uhf_band_capabilities })
    }
}

/// `std::string::FromUtf8Error`, which `String::from_utf8` returns for bytes that
/// are not UTF-8.
#[verifier::external_type_specification]
#[verifier::external_body]
pub struct ExFromUtf8Error(std::string::FromUtf8Error);

/// `String::from_utf8`: the text that the bytes spell in UTF-8, and an error
/// exactly where they are not valid UTF-8.
#[verifier::external_body]
fn string_from_utf8(bytes: Vec<u8>) -> (r: Result<String, std::string::FromUtf8Error>)
    ensures
        r is Ok <==> valid_utf8(bytes@),
        r matches Ok(s) ==> s@ == decode_utf8(bytes@),
{
    String::from_utf8(bytes)
}

/// What the reader is: its antennas, its maker and model, its firmware.
#[derive(Debug, Clone, PartialEq, Eq)]
pub struct GeneralDeviceCapabilities {
    pub max_number_of_antennas_supported: u16,
    pub general_device_capabilities: u16,
    pub device_manufacturer_name: u32,
    pub model_name: u32,
    pub reader_firmware_version: String,
    pub receive_sensitivity_table_entries: Vec<ReceiveSensitivityTableEntry>,
    pub gpio_capabilities: Option<GPIOCapabilities>,
    pub antenna_air_protocols: Vec<AntennaAirProtocol>,
}

/// A `GeneralDeviceCapabilities` with its text and its tables as sequences.
pub struct GeneralDeviceCapabilitiesView {
    pub max_number_of_antennas_supported: u16,
    pub general_device_capabilities: u16,
    pub device_manufacturer_name: u32,
    pub model_name: u32,
    pub reader_firmware_version: Seq<char>,
    pub receive_sensitivity_table_entries: Seq<ReceiveSensitivityTableEntry>,
    pub gpio_capabilities: Option<GPIOCapabilities>,
    pub antenna_air_protocols: Seq<AntennaAirProtocolView>,
}

impl View for GeneralDeviceCapabilities {
    type V = GeneralDeviceCapabilitiesView;

    open spec fn view(&self) -> GeneralDeviceCapabilitiesView {
        GeneralDeviceCapabilitiesView {
            max_number_of_antennas_supported: self.max_number_of_antennas_supported,
            general_device_capabilities: self.general_device_capabilities,
            device_manufacturer_name: self.device_manufacturer_name,
            model_name: self.model_name,
            reader_firmware_version: self.reader_firmware_version@,
            receive_sensitivity_table_entries: self.receive_sensitivity_table_entries@,
            gpio_capabilities: self.gpio_capabilities,
            antenna_air_protocols: seq_views(self.antenna_air_protocols@),
        }
    }
}

/// What `p` adds to the device capabilities read so far: a sensitivity entry or
/// an antenna's protocols are appended, GPIO capabilities take the place of
/// earlier ones, anything else is skipped.
pub open spec fn spec_general_device_capabilities_step(
    acc: GeneralDeviceCapabilitiesView,
    p: ParameterView,
) -> Result<GeneralDeviceCapabilitiesView, LlrpError> {
    match p.param_type {
        LlrpParameterType::ReceiveSensitivityTableEntry => match spec_decode_receive_sensitivity(
            p.param_value,
        ) {
            Ok(entry) => Ok(
                GeneralDeviceCapabilitiesView {
                    receive_sensitivity_table_entries: acc.receive_sensitivity_table_entries.push(
                        entry,
                    ),
                    ..acc
                },
            ),
            Err(e) => Err(e),
        },
        LlrpParameterType::GPIPCapabilities => match spec_decode_gpio_capabilities(p.param_value) {
            Ok(caps) => Ok(GeneralDeviceCapabilitiesView { gpio_capabilities: Some(caps), ..acc }),
            Err(e) => Err(e),
        },
        LlrpParameterType::PerAntennaAirProtocol => match spec_decode_antenna_air_protocol(
            p.param_value,
        ) {
            Ok(protocols) => Ok(
                GeneralDeviceCapabilitiesView {
                    antenna_air_protocols: acc.antenna_air_protocols.push(protocols),
                    ..acc
                },
            ),
            Err(e) => Err(e),
        },
        _ => Ok(acc),
    }
}

/// `acc` with what the parameters of `ps` from the `i`-th on add, or the error of
/// the first of them that cannot be read.
pub open spec fn spec_general_device_capabilities_from(
    ps: Seq<ParameterView>,
    i: int,
    acc: GeneralDeviceCapabilitiesView,
) -> Result<GeneralDeviceCapabilitiesView, LlrpError>
    decreases ps.len() - i,
{
    if i < 0 || i >= ps.len() {
        Ok(acc)
    } else {
        match spec_general_device_capabilities_step(acc, ps[i]) {
            Err(e) => Err(e),
            Ok(next) => spec_general_device_capabilities_from(ps, i + 1, next),
        }
    }
}

/// What the value of a `GeneralDeviceCapabilities` parameter holds: two 16-bit
/// and two 32-bit fields, the firmware version as UTF-8 text behind its 16-bit
/// length, then a list of parameters.
pub open spec fn spec_decode_general_device_capabilities(b: Seq<u8>) -> Result<
    GeneralDeviceCapabilitiesView,
    LlrpError,
> {
    if b.len() < 14 {
        Err(LlrpError::MalformedResponse)
    } else if b.len() - 14 < u16_at(b, 12) {
        Err(LlrpError::MalformedResponse)
    } else if !valid_utf8(b.subrange(14, 14 + u16_at(b, 12))) {
        Err(LlrpError::MalformedResponse)
    } else {
        match spec_parse_parameters(b.skip(14 + u16_at(b, 12))) {
            Err(e) => Err(e),
            Ok(ps) => spec_general_device_capabilities_from(
                ps,
                0,
                GeneralDeviceCapabilitiesView {
                    max_number_of_antennas_supported: u16_at(b, 0),
                    general_device_capabilities: u16_at(b, 2),
                    device_manufacturer_name: u32_at(b, 4),
                    model_name: u32_at(b, 8),
                    reader_firmware_version: decode_utf8(b.subrange(14, 14 + u16_at(b, 12))),
                    receive_sensitivity_table_entries: Seq::empty(),
                    gpio_capabilities: None,
                    antenna_air_protocols: Seq::empty(),
                },
            ),
        }
    }
}

impl GeneralDeviceCapabilities {
    /// Reads the value of a `GeneralDeviceCapabilities` parameter. It fails with
    /// `MalformedResponse` where the fixed fields or the firmware version are cut
    /// short or the version is not UTF-8, else with the error of the parameter
    /// list or of the first parameter in it that cannot be read.
    pub fn decode(buf: &[u8]) -> (r: Result<GeneralDeviceCapabilities, LlrpError>)
        ensures
            result_view(r) == spec_decode_general_device_capabilities(buf@),
    {
        let mut cur = Cursor::new(buf);
        if cur.remaining() < 12 {
            return Err(LlrpError::MalformedResponse);
        }
        let max_number_of_antennas_supported = cur.u16();
        let general_device_capabilities = cur.u16();
        let device_manufacturer_name = cur.u32();
        let model_name = cur.u32();

        if cur.remaining() < 2 {
            return Err(LlrpError::MalformedResponse);
        }
        let firmware_length: usize = cur.u16() as usize;
        if cur.remaining() < firmware_length {
            return Err(LlrpError::MalformedResponse);
        }
        let firmware_bytes = cur.bytes(firmware_length);
        let reader_firmware_version = match string_from_utf8(firmware_bytes) {
            Ok(s) => s,
            Err(_) => {
                return Err(LlrpError::MalformedResponse);
            },
        };

        let sub_parameters = match parse_parameters(cur.rest()) {
            Ok(v) => v,
            Err(e) => {
                return Err(e);
            },
        };
        let ghost ps = seq_views(sub_parameters@);

        let mut receive_sensitivity_table_entries: Vec<ReceiveSensitivityTableEntry> = Vec::new();
        let mut gpio_capabilities: Option<GPIOCapabilities> = None;
        let mut antenna_air_protocols: Vec<AntennaAirProtocol> = Vec::new();
        assert(seq_views(antenna_air_protocols@) =~= Seq::<AntennaAirProtocolView>::empty());

        let mut i: usize = 0;
        while i < sub_parameters.len()
            invariant
                i <= sub_parameters@.len(),
                ps == seq_views(sub_parameters@),
                spec_decode_general_device_capabilities(buf@)
                    == spec_general_device_capabilities_from(
                    ps,
                    i as int,
                    GeneralDeviceCapabilitiesView {
                        max_number_of_antennas_supported,
                        general_device_capabilities,
                        device_manufacturer_name,
                        model_name,
                        reader_firmware_version: reader_firmware_version@,
                        receive_sensitivity_table_entries: receive_sensitivity_table_entries@,
                        gpio_capabilities,
                        antenna_air_protocols: seq_views(antenna_air_protocols@),
                    },
                ),
            decreases sub_parameters@.len() - i,
        {
            let param = &sub_parameters[i];
            match param.param_type {
                LlrpParameterType::ReceiveSensitivityTableEntry => {
                    match ReceiveSensitivityTableEntry::decode(param.param_value.as_slice()) {
                        Ok(entry) => {
                            receive_sensitivity_table_entries.push(entry);
                        },
                        Err(e) => {
                            return Err(e);
                        },
                    }
                },
                LlrpParameterType::GPIPCapabilities => {
                    match GPIOCapabilities::decode(param.param_value.as_slice()) {
                        Ok(caps) => {
                            gpio_capabilities = Some(caps);
                        },
                        Err(e) => {
                            return Err(e);
                        },
                    }
                },
                LlrpParameterType::PerAntennaAirProtocol => {
                    match AntennaAirProtocol::decode(param.param_value.as_slice()) {
                        Ok(protocols) => {
                            proof {
                                lemma_seq_views_push(antenna_air_protocols@, protocols);
                            }
                            antenna_air_protocols.push(protocols);
                        },
                        Err(e) => {
                            return Err(e);
                        },
                    }
                },
                _ => {},
            }
            i = i + 1;
        }
        Ok(
            GeneralDeviceCapabilities {
                max_number_of_antennas_supported,
                general_device_capabilities,
                device_manufacturer_name,
                model_name,
                reader_firmware_version,
                receive_sensitivity_table_entries,
                gpio_capabilities,
                antenna_air_protocols,
            },
        )
    }
}

/// One observation of a tag.
#[derive(Debug, Clone, PartialEq, Eq)]
pub struct TagReportData {
    pub epc: Vec<u8>,
}

impl View for TagReportData {
    type V = Seq<u8>;

    open spec fn view(&self) -> Seq<u8> {
        self.epc@
    }
}

/// The EPC read so far, or the one that `p` holds if it holds one.
pub open spec fn spec_tag_report_data_step(acc: Seq<u8>, p: ParameterView) -> Result<
    Seq<u8>,
    LlrpError,
> {
    match p.param_type {
        LlrpParameterType::EPCData => spec_decode_epc_data(p.param_value),
        LlrpParameterType::EPC96 => spec_decode_epc96(p.param_value),
        _ => Ok(acc),
    }
}

/// The EPC `acc`, or the last one that the parameters of `ps` from the `i`-th on
/// hold, or the error of the first of them that cannot be read.
pub open spec fn spec_tag_report_data_from(ps: Seq<ParameterView>, i: int, acc: Seq<u8>) -> Result<
    Seq<u8>,
    LlrpError,
>
    decreases ps.len() - i,
{
    if i < 0 || i >= ps.len() {
        Ok(acc)
    } else {
        match spec_tag_report_data_step(acc, ps[i]) {
            Err(e) => Err(e),
            Ok(next) => spec_tag_report_data_from(ps, i + 1, next),
        }
    }
}

/// What the value of a `TagReportData` parameter holds: a list of parameters, of
/// which the last `EPCData` or `EPC96` gives the EPC. Without one the EPC is
/// empty.
pub open spec fn spec_decode_tag_report_data(b: Seq<u8>) -> Result<Seq<u8>, LlrpError> {
    match spec_parse_parameters(b) {
        Err(e) => Err(e),
        Ok(ps) => spec_tag_report_data_from(ps, 0, Seq::empty()),
    }
}

impl TagReportData {
    /// Reads the value of a `TagReportData` parameter. It fails with the error of
    /// the parameter list, or of the first EPC in it that cannot be read.
    pub fn decode(buf: &[u8]) -> (r: Result<TagReportData, LlrpError>)
        ensures
            result_view(r) == spec_decode_tag_report_data(buf@),
    {
        let cur = Cursor::new(buf);
        assert(buf@.skip(0) =~= buf@);
        let mut epc: Vec<u8> = Vec::new();

        let parameters = match parse_parameters(cur.rest()) {
            Ok(v) => v,
            Err(e) => {
                return Err(e);
            },
        };
        let ghost ps = seq_views(parameters@);

        let mut i: usize = 0;
        while i < parameters.len()
            invariant
                i <= parameters@.len(),
                ps == seq_views(parameters@),
                spec_decode_tag_report_data(buf@) == spec_tag_report_data_from(ps, i as int, epc@),
            decreases parameters@.len() - i,
        {
            let parameter = &parameters[i];
            match parameter.param_type {
                LlrpParameterType::EPCData => {
                    match EPCData::decode(parameter.param_value.as_slice()) {
                        Ok(epc_data) => {
                            epc = epc_data.epc;
                        },
                        Err(e) => {
                            return Err(e);
                        },
                    }
                },
                LlrpParameterType::EPC96 => {
                    match EPCData::decode_epc96(parameter.param_value.as_slice()) {
                        Ok(epc_data) => {
                            epc = epc_data.epc;
                        },
                        Err(e) => {
                            return Err(e);
                        },
                    }
                },
                _ => {},
            }
            i = i + 1;
        }
        Ok(TagReportData { epc })
    }

    /// The EPC in hexadecimal, two lower-case digits for each octet.
    pub fn to_string(&self) -> (s: String)
        ensures
            s@ == spec_hex(self@),
    {
        hex_string(self.epc.as_slice())
    }
}

/// A top-level parameter of a response, decoded.
#[derive(Debug, Clone, PartialEq, Eq)]
pub enum LlrpParameterData {
    LLRPStatus(LLRPStatus),
    GeneralDeviceCapabilities(GeneralDeviceCapabilities),
    LLRPCapabilities(LLRPCapabilities),
    RegulatoryCapabilities(RegulatoryCapabilities),
    C1G2LLRPCapabilities(C1G2LLRPCapabilities),
    Identification(Identification),
}

/// An `LlrpParameterData` with the tables inside it as sequences.
pub enum LlrpParameterDataView {
    LLRPStatus(LLRPStatus),
    GeneralDeviceCapabilities(GeneralDeviceCapabilitiesView),
    LLRPCapabilities(LLRPCapabilities),
    RegulatoryCapabilities(RegulatoryCapabilitiesView),
    C1G2LLRPCapabilities(C1G2LLRPCapabilities),
    Identification(IdentificationView),
}

impl View for LlrpParameterData {
    type V = LlrpParameterDataView;

    open spec fn view(&self) -> LlrpParameterDataView {
        match *self {
            LlrpParameterData::LLRPStatus(s) => LlrpParameterDataView::LLRPStatus(s),
            LlrpParameterData::GeneralDeviceCapabilities(c) => {
                LlrpParameterDataView::GeneralDeviceCapabilities(c@)
            },
            LlrpParameterData::LLRPCapabilities(c) => LlrpParameterDataView::LLRPCapabilities(c),
            LlrpParameterData::RegulatoryCapabilities(c) => {
                LlrpParameterDataView::RegulatoryCapabilities(c@)
            },
            LlrpParameterData::C1G2LLRPCapabilities(c) => {
                LlrpParameterDataView::C1G2LLRPCapabilities(c)
            },
            LlrpParameterData::Identification(id) => LlrpParameterDataView::Identification(id@),
        }
    }
}

/// Whether a parameter is written in the TV encoding: the types under 128 are.
pub open spec fn spec_is_tv(param_type: LlrpParameterType) -> bool {
    param_type.spec_value() < 128
}

/// Whether `encode_parameters` can write the parameter so that it reads back as
/// it is: a TV parameter has a value of its type's fixed size, a TLV parameter a
/// value that leaves its length within 16 bits, and either has the length that
/// its value makes.
pub open spec fn spec_encodable(p: ParameterView) -> bool {
    if spec_is_tv(p.param_type) {
        spec_tv_param_length(p.param_type) matches Some(n) && p.param_value.len() == n
            && p.param_length == 1 + n
    } else {
        4 + p.param_value.len() <= 0xFFFF && p.param_length == 4 + p.param_value.len()
    }
}

/// Whether every parameter of the list is encodable.
pub open spec fn spec_all_encodable(ps: Seq<ParameterView>) -> bool {
    forall|i: int| 0 <= i < ps.len() ==> spec_encodable(#[trigger] ps[i])
}

/// One parameter on the wire: a TV parameter as its type with the high bit set
/// and its value, a TLV parameter as its type, its length and its value.
pub open spec fn spec_encode_flat_parameter(p: ParameterView) -> Seq<u8> {
    if spec_is_tv(p.param_type) {
        seq![(128 + p.param_type.spec_value()) as u8] + p.param_value
    } else {
        u16_be_bytes(p.param_type.spec_value()) + u16_be_bytes(p.param_length) + p.param_value
    }
}

/// The parameters of a list on the wire, one after the other.
pub open spec fn spec_encode_parameters(ps: Seq<ParameterView>) -> Seq<u8>
    decreases ps.len(),
{
    if ps.len() == 0 {
        Seq::empty()
    } else {
        spec_encode_flat_parameter(ps[0]) + spec_encode_parameters(ps.drop_first())
    }
}

/// A list with one more parameter at its end is written as the list, then the
/// parameter.
pub proof fn lemma_encode_parameters_push(ps: Seq<ParameterView>, p: ParameterView)
    ensures
        spec_encode_parameters(ps.push(p)) == spec_encode_parameters(ps)
            + spec_encode_flat_parameter(p),
    decreases ps.len(),
{
    if ps.len() == 0 {
        assert(spec_encode_parameters(ps.push(p).drop_first()) =~= Seq::<u8>::empty());
    } else {
        lemma_encode_parameters_push(ps.drop_first(), p);
        assert(ps.push(p).drop_first() =~= ps.drop_first().push(p));
    }
}

/// An encodable parameter at the start of a run of octets is read back as it is,
/// and the rest is left.
pub proof fn lemma_parse_encoded_parameter(p: ParameterView, rest: Seq<u8>)
    requires
        spec_encodable(p),
    ensures
        spec_parse_parameter(spec_encode_flat_parameter(p) + rest) == Ok::<
            (ParameterView, int),
            LlrpError,
        >((p, spec_encode_flat_parameter(p).len() as int)),
        spec_encode_flat_parameter(p).len() > 0,
{
    let e = spec_encode_flat_parameter(p);
    let b = e + rest;
    lemma_parameter_type_round_trip(p.param_type);
    if spec_is_tv(p.param_type) {
        assert(b.subrange(1, 13) =~= p.param_value);
    } else {
        assert(b.subrange(4, p.param_length as int) =~= p.param_value);
    }
}

/// Writing out a list of encodable parameters and reading the octets back gives
/// the list.
pub proof fn lemma_parse_encode_parameters(ps: Seq<ParameterView>)
    requires
        spec_all_encodable(ps),
    ensures
        spec_parse_parameters(spec_encode_parameters(ps)) == Ok::<Seq<ParameterView>, LlrpError>(
            ps,
        ),
    decreases ps.len(),
{
    if ps.len() == 0 {
        assert(ps =~= Seq::<ParameterView>::empty());
    } else {
        let p = ps[0];
        let tail = ps.drop_first();
        assert(spec_encodable(p));
        assert forall|i: int| 0 <= i < tail.len() implies spec_encodable(#[trigger] tail[i]) by {
            assert(tail[i] == ps[i + 1]);
        }
        lemma_parse_encode_parameters(tail);
        let e = spec_encode_flat_parameter(p);
        let rest = spec_encode_parameters(tail);
        let b = e + rest;
        lemma_parse_encoded_parameter(p, rest);
        assert(spec_encode_parameters(ps) == b);
        assert(spec_parse_parameter(b) == Ok::<(ParameterView, int), LlrpError>(
            (p, e.len() as int),
        ));
        assert(b.skip(e.len() as int) =~= rest);
        assert(spec_parse_parameters(b.skip(e.len() as int)) == Ok::<
            Seq<ParameterView>,
            LlrpError,
        >(tail));
        assert(seq![p] + tail =~= ps);
    }
}

/// A TLV parameter with a type of the registry, written out with the length that
/// its body makes, is read back as one parameter with that type, that length
/// and that body.
pub proof fn lemma_parse_tlv(param_type: LlrpParameterType, body: Seq<u8>)
    requires
        4 + body.len() <= 0xFFFF,
    ensures
        spec_parse_parameters(spec_tlv(param_type, body)) == Ok::<Seq<ParameterView>, LlrpError>(
            seq![
                ParameterView {
                    param_type,
                    param_length: (4 + body.len()) as u16,
                    param_value: body,
                },
            ],
        ),
{
    let b = spec_tlv(param_type, body);
    let length = (4 + body.len()) as u16;
    lemma_parameter_type_round_trip(param_type);
    lemma_tlv_len(param_type, body);
    assert(b.subrange(4, length as int) =~= body);
    assert(spec_parse_parameters(b.skip(length as int)) == Ok::<Seq<ParameterView>, LlrpError>(
        Seq::empty(),
    ));
}

/// Whether `b` holds TV parameters only, end to end: each starts with an octet
/// whose high bit is set, and has a value of its type's fixed size.
pub open spec fn spec_tv_only(b: Seq<u8>) -> bool
    decreases b.len(),
{
    b.len() == 0 || (b[0] >= 128 && match spec_parse_parameter(b) {
        Ok((_, n)) => 0 < n <= b.len() && spec_tv_only(b.skip(n)),
        Err(_) => false,
    })
}

/// A TV parameter that is read from the start of a run of octets is written out
/// again as the octets that it was read from.
pub proof fn lemma_tv_parameter_is_its_octets(b: Seq<u8>)
    requires
        b.len() > 0,
        b[0] >= 128,
        spec_parse_parameter(b) is Ok,
    ensures
        spec_is_tv(spec_parse_parameter(b)->Ok_0.0.param_type),
        0 < spec_parse_parameter(b)->Ok_0.1 <= b.len(),
        spec_encode_flat_parameter(spec_parse_parameter(b)->Ok_0.0) == b.take(
            spec_parse_parameter(b)->Ok_0.1,
        ),
{
    let (p, n) = spec_parse_parameter(b)->Ok_0;
    assert(n == 13);
    assert(spec_encode_flat_parameter(p) =~= b.take(13));
}

/// A run of octets that holds TV parameters only is read, and is written out
/// again, octet for octet, from the parameters that were read from it.
pub proof fn lemma_encode_parse_tv_only(b: Seq<u8>)
    requires
        spec_tv_only(b),
    ensures
        spec_parse_parameters(b) is Ok,
        spec_encode_parameters(spec_parse_parameters(b)->Ok_0) == b,
    decreases b.len(),
{
    if b.len() > 0 {
        let n = spec_parse_parameter(b)->Ok_0.1;
        lemma_tv_parameter_is_its_octets(b);
        lemma_encode_parse_tv_only(b.skip(n));
        let rest = spec_parse_parameters(b.skip(n))->Ok_0;
        let ps = spec_parse_parameters(b)->Ok_0;
        assert(ps.drop_first() =~= rest);
    }
}

/// Writes a list of parameters out, one after the other: those of a type under
/// 128 in the TV encoding, the others as TLV. `sub_params` is not looked at: the
/// value is written as it stands.
///
/// It returns `None` where a parameter is not encodable: a TV parameter whose
/// type has no fixed size or whose value has another size, a TLV parameter whose
/// value is too long for a 16-bit length, or a parameter whose `param_length` is
/// not the length that its value makes.
pub fn encode_parameters(params: &Vec<LlrpParameter>) -> (r: Option<BytesMut>)
    ensures
        r is Some <==> spec_all_encodable(seq_views(params@)),
        r matches Some(buffer) ==> contents(buffer) == spec_encode_parameters(seq_views(params@)),
{
    let ghost ps = seq_views(params@);
    let mut buffer = buffer_new();
    let mut i: usize = 0;
    while i < params.len()
        invariant
            i <= params@.len(),
            ps == seq_views(params@),
            spec_all_encodable(ps.take(i as int)),
            contents(buffer) == spec_encode_parameters(ps.take(i as int)),
        decreases params@.len() - i,
    {
        let param = &params[i];
        let type_value: u16 = param.param_type.value();
        let value_len: usize = param.param_value.len();
        let encodable: bool = if type_value < 128 {
            match get_tv_param_length(param.param_type) {
                Some(n) => value_len == n && param.param_length as usize == 1 + n,
                None => false,
            }
        } else {
            value_len <= 0xFFFF - 4 && param.param_length as usize == 4 + value_len
        };
        if !encodable {
            assert(!spec_encodable(ps[i as int]));
            return None;
        }
        if type_value < 128 {
            put_u8(&mut buffer, (128 + type_value) as u8);
        } else {
            put_u16(&mut buffer, type_value);
            put_u16(&mut buffer, param.param_length);
        }
        put_slice(&mut buffer, param.param_value.as_slice());
        proof {
            lemma_encode_parameters_push(ps.take(i as int), param@);
            assert(ps.take(i as int).push(param@) =~= ps.take(i + 1));
        }
        i = i + 1;
    }
    assert(ps.take(i as int) =~= ps);
    Some(buffer)
}

} // verus!
