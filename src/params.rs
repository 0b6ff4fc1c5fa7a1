//! Typed parameter groups of the drive, assembled from the replies to a
//! fixed list of read commands and turned into write requests.
//!
//! Every value is carried as the drive's fixed-point integer; the unit of
//! each field is in its doc comment. A field is `None` when its reply was
//! missing or too short, so "the drive said zero" and "no answer" differ.

use vstd::prelude::*;
use crate::catalog;
use crate::fields::{i16_from_be, i32_from_be, lemma_i32_round_trip, vec_to_int, vec_to_short};
use crate::frame::{be_i32, request_frame};

verus! {

/// One request on the motor link: a command code and its argument.
#[derive(Clone, Copy, Debug, PartialEq, Eq, Structural)]
pub struct Request {
    pub cmd: u8,
    pub value: i32,
}

/// The payload of reply `i`, if there is one.
pub open spec fn reply_at(replies: Seq<Option<Vec<u8>>>, i: int) -> Option<Seq<u8>> {
    if 0 <= i < replies.len() {
        match replies[i] {
            Some(p) => Some(p@),
            None => None,
        }
    } else {
        None
    }
}

/// The view of an optional reply.
pub open spec fn reply_view(reply: Option<Vec<u8>>) -> Option<Seq<u8>> {
    match reply {
        Some(p) => Some(p@),
        None => None,
    }
}

/// The signed word at byte `off` of a reply that holds at least `need` bytes.
pub open spec fn word_in(reply: Option<Seq<u8>>, off: int, need: int) -> Option<i32> {
    match reply {
        Some(p) => if p.len() >= need {
            Some(i32_from_be(p.subrange(off, off + 4)))
        } else {
            None
        },
        None => None,
    }
}

/// The same word read as an unsigned count.
pub open spec fn count_in(reply: Option<Seq<u8>>, off: int, need: int) -> Option<u32> {
    match word_in(reply, off, need) {
        Some(w) => Some(w as u32),
        None => None,
    }
}

/// The byte at `off` of a reply that holds at least four bytes.
pub open spec fn byte_in(reply: Option<Seq<u8>>, off: int) -> Option<u8> {
    match reply {
        Some(p) => if p.len() >= 4 {
            Some(p[off])
        } else {
            None
        },
        None => None,
    }
}

/// The request that writes `v` with command `cmd`, if there is a value.
pub open spec fn write_of(cmd: u8, v: Option<i32>) -> Seq<Request> {
    match v {
        Some(x) => seq![Request { cmd, value: x }],
        None => seq![],
    }
}

/// The request that writes the count `v`, sent as its 32-bit pattern.
pub open spec fn write_count_of(cmd: u8, v: Option<u32>) -> Seq<Request> {
    match v {
        Some(x) => seq![Request { cmd, value: x as i32 }],
        None => seq![],
    }
}

fn reply_word(replies: &Vec<Option<Vec<u8>>>, i: usize, off: usize, need: usize) -> (r: Option<i32>)
    requires
        off + 4 <= need,
    ensures
        r == word_in(reply_at(replies@, i as int), off as int, need as int),
{
    if i < replies.len() {
        match &replies[i] {
            Some(p) => {
                if p.len() >= need {
                    let w = vec_to_int(&p.as_slice()[off..off + 4]);
                    Some(w)
                } else {
                    None
                }
            },
            None => None,
        }
    } else {
        None
    }
}

fn reply_count(replies: &Vec<Option<Vec<u8>>>, i: usize, off: usize, need: usize) -> (r: Option<
    u32,
>)
    requires
        off + 4 <= need,
    ensures
        r == count_in(reply_at(replies@, i as int), off as int, need as int),
{
    match reply_word(replies, i, off, need) {
        Some(w) => Some(#[verifier::truncate] (w as u32)),
        None => None,
    }
}

fn reply_byte(replies: &Vec<Option<Vec<u8>>>, i: usize, off: usize) -> (r: Option<u8>)
    requires
        off < 4,
    ensures
        r == byte_in(reply_at(replies@, i as int), off as int),
{
    if i < replies.len() {
        match &replies[i] {
            Some(p) => {
                if p.len() >= 4 {
                    Some(p[off])
                } else {
                    None
                }
            },
            None => None,
        }
    } else {
        None
    }
}

fn push_write(r: &mut Vec<Request>, cmd: u8, v: Option<i32>)
    ensures
        final(r)@ == old(r)@ + write_of(cmd, v),
{
    match v {
        Some(x) => r.push(Request { cmd, value: x }),
        None => {},
    }
    assert(final(r)@ =~= old(r)@ + write_of(cmd, v));
}

fn push_write_count(r: &mut Vec<Request>, cmd: u8, v: Option<u32>)
    ensures
        final(r)@ == old(r)@ + write_count_of(cmd, v),
{
    match v {
        Some(x) => r.push(Request { cmd, value: #[verifier::truncate] (x as i32) }),
        None => {},
    }
    assert(final(r)@ =~= old(r)@ + write_count_of(cmd, v));
}

/// The reading of a single-word reply (speed, position, bus voltage).
pub fn reading_word(reply: &Option<Vec<u8>>) -> (r: Option<i32>)
    ensures
        r == word_in(reply_view(*reply), 0, 4),
{
    match reply {
        Some(p) => {
            if p.len() >= 4 {
                Some(vec_to_int(p.as_slice()))
            } else {
                None
            }
        },
        None => None,
    }
}

/// The electrical and mechanical characteristics of the motor.
#[derive(Clone, Debug, PartialEq, Eq)]
pub struct MotorFeatureParams {
    /// The pole pairs.
    pub poles: Option<u32>,
    /// The stator resistance, in 1e-8 ohm.
    pub rs_ohm: Option<i32>,
    /// The d-axis inductance, in 1e-8 H.
    pub ls_d: Option<i32>,
    /// The q-axis inductance, in 1e-8 H.
    pub ls_q: Option<i32>,
    /// The rated flux, in 1e-8 Wb.
    pub rated_flux: Option<i32>,
    /// The resistance estimation current, in mA.
    pub res_est_current: Option<i32>,
    /// The inductance estimation current, in mA.
    pub ind_est_current: Option<i32>,
    /// The maximum current, in mA.
    pub max_current: Option<i32>,
    /// The flux estimation frequency, in mHz.
    pub flux_exec_freq: Option<i32>,
    /// The rotor inertia, in 1e-3 kg m^2.
    pub wbp_kgm2: Option<i32>,
    /// The rated voltage, in mV.
    pub rated_voltage: Option<i32>,
}

/// The read commands whose replies give the electrical and mechanical
/// characteristics of the motor, in order.
pub open spec fn feature_params_queries_spec() -> Seq<u8> {
    seq![catalog::GET_POLE_PAIRS, catalog::GET_PARAM_RS, catalog::GET_PARAM_LS_D,
        catalog::GET_PARAM_LS_Q, catalog::GET_PARAM_FLUX, catalog::GET_RES_EST_CURRENT,
        catalog::GET_IND_EST_CURRENT, catalog::GET_MAX_CURRENT, catalog::GET_FLUX_EXEC_FREQ,
        catalog::GET_WBP_KGM2, catalog::GET_RATED_VOLTAGE]
}

/// The read commands to issue, in order, for the electrical and mechanical
/// characteristics of the motor.
pub fn feature_params_queries() -> (r: Vec<u8>)
    ensures
        r@ == feature_params_queries_spec(),
{
    let mut r: Vec<u8> = Vec::new();
    r.push(catalog::GET_POLE_PAIRS);
    r.push(catalog::GET_PARAM_RS);
    r.push(catalog::GET_PARAM_LS_D);
    r.push(catalog::GET_PARAM_LS_Q);
    r.push(catalog::GET_PARAM_FLUX);
    r.push(catalog::GET_RES_EST_CURRENT);
    r.push(catalog::GET_IND_EST_CURRENT);
    r.push(catalog::GET_MAX_CURRENT);
    r.push(catalog::GET_FLUX_EXEC_FREQ);
    r.push(catalog::GET_WBP_KGM2);
    r.push(catalog::GET_RATED_VOLTAGE);
    assert(r@ =~= feature_params_queries_spec());
    r
}

/// Assembles the electrical and mechanical characteristics of the motor from
/// the replies to `feature_params_queries`; reply `i`
/// answers query `i`.
pub fn decode_feature_params(replies: &Vec<Option<Vec<u8>>>) -> (r: MotorFeatureParams)
    ensures
        r.poles == count_in(reply_at(replies@, 0), 0, 4),
        r.rs_ohm == word_in(reply_at(replies@, 1), 0, 4),
        r.ls_d == word_in(reply_at(replies@, 2), 0, 4),
        r.ls_q == word_in(reply_at(replies@, 3), 0, 4),
        r.rated_flux == word_in(reply_at(replies@, 4), 0, 4),
        r.res_est_current == word_in(reply_at(replies@, 5), 0, 4),
        r.ind_est_current == word_in(reply_at(replies@, 6), 0, 4),
        r.max_current == word_in(reply_at(replies@, 7), 0, 4),
        r.flux_exec_freq == word_in(reply_at(replies@, 8), 0, 4),
        r.wbp_kgm2 == word_in(reply_at(replies@, 9), 0, 4),
        r.rated_voltage == word_in(reply_at(replies@, 10), 0, 4),
{
    MotorFeatureParams {
        poles: reply_count(replies, 0, 0, 4),
        rs_ohm: reply_word(replies, 1, 0, 4),
        ls_d: reply_word(replies, 2, 0, 4),
        ls_q: reply_word(replies, 3, 0, 4),
        rated_flux: reply_word(replies, 4, 0, 4),
        res_est_current: reply_word(replies, 5, 0, 4),
        ind_est_current: reply_word(replies, 6, 0, 4),
        max_current: reply_word(replies, 7, 0, 4),
        flux_exec_freq: reply_word(replies, 8, 0, 4),
        wbp_kgm2: reply_word(replies, 9, 0, 4),
        rated_voltage: reply_word(replies, 10, 0, 4),
    }
}

/// The write requests that set the electrical and mechanical characteristics of
/// the motor, one per present field.
pub open spec fn feature_params_writes(p: MotorFeatureParams) -> Seq<Request> {
    write_count_of(catalog::SET_POLE_PAIRS, p.poles)
        + write_of(catalog::SET_PARAM_RS, p.rs_ohm)
        + write_of(catalog::SET_PARAM_LS_D, p.ls_d)
        + write_of(catalog::SET_PARAM_LS_Q, p.ls_q)
        + write_of(catalog::SET_PARAM_FLUX, p.rated_flux)
        + write_of(catalog::SET_RES_EST_CURRENT, p.res_est_current)
        + write_of(catalog::SET_IND_EST_CURRENT, p.ind_est_current)
        + write_of(catalog::SET_MAX_CURRENT, p.max_current)
        + write_of(catalog::SET_FLUX_EXEC_FREQ, p.flux_exec_freq)
        + write_of(catalog::SET_WBP_KGM2, p.wbp_kgm2)
        + write_of(catalog::SET_RATED_VOLTAGE, p.rated_voltage)
}

/// The write requests, in order, that set the electrical and mechanical
/// characteristics of the motor.
pub fn feature_params_requests(p: &MotorFeatureParams) -> (r: Vec<Request>)
    ensures
        r@ == feature_params_writes(*p),
{
    let mut r: Vec<Request> = Vec::new();
    push_write_count(&mut r, catalog::SET_POLE_PAIRS, p.poles);
    push_write(&mut r, catalog::SET_PARAM_RS, p.rs_ohm);
    push_write(&mut r, catalog::SET_PARAM_LS_D, p.ls_d);
    push_write(&mut r, catalog::SET_PARAM_LS_Q, p.ls_q);
    push_write(&mut r, catalog::SET_PARAM_FLUX, p.rated_flux);
    push_write(&mut r, catalog::SET_RES_EST_CURRENT, p.res_est_current);
    push_write(&mut r, catalog::SET_IND_EST_CURRENT, p.ind_est_current);
    push_write(&mut r, catalog::SET_MAX_CURRENT, p.max_current);
    push_write(&mut r, catalog::SET_FLUX_EXEC_FREQ, p.flux_exec_freq);
    push_write(&mut r, catalog::SET_WBP_KGM2, p.wbp_kgm2);
    push_write(&mut r, catalog::SET_RATED_VOLTAGE, p.rated_voltage);
    assert(r@ =~= feature_params_writes(*p));
    r
}

/// The currents and speeds of the start sequence.
#[derive(Clone, Debug, PartialEq, Eq)]
pub struct MotorStartupParams {
    /// The flux current, in mA.
    pub flux_current: Option<i32>,
    /// The alignment current, in mA.
    pub align_current: Option<i32>,
    /// The open-loop startup current, in mA.
    pub startup_current: Option<i32>,
    /// The torque current, in mA.
    pub torque_current: Option<i32>,
    /// The speed at which the start sequence begins, in 1e-3 Hz.
    pub speed_start: Option<i32>,
    /// The speed at which closed-loop control takes over, in 1e-3 Hz.
    pub speed_force: Option<i32>,
}

/// The read commands whose replies give the currents and speeds of the start
/// sequence, in order.
pub open spec fn startup_params_queries_spec() -> Seq<u8> {
    seq![catalog::GET_FLUX_CURRENT, catalog::GET_ALIGN_CURRENT, catalog::GET_STARTUP_CURRENT,
        catalog::GET_TORQUE_CURRENT, catalog::GET_SPEED_START, catalog::GET_SPEED_FORCE]
}

/// The read commands to issue, in order, for the currents and speeds of the
/// start sequence.
pub fn startup_params_queries() -> (r: Vec<u8>)
    ensures
        r@ == startup_params_queries_spec(),
{
    let mut r: Vec<u8> = Vec::new();
    r.push(catalog::GET_FLUX_CURRENT);
    r.push(catalog::GET_ALIGN_CURRENT);
    r.push(catalog::GET_STARTUP_CURRENT);
    r.push(catalog::GET_TORQUE_CURRENT);
    r.push(catalog::GET_SPEED_START);
    r.push(catalog::GET_SPEED_FORCE);
    assert(r@ =~= startup_params_queries_spec());
    r
}

/// Assembles the currents and speeds of the start sequence from the replies to
/// `startup_params_queries`; reply `i`
/// answers query `i`.
pub fn decode_startup_params(replies: &Vec<Option<Vec<u8>>>) -> (r: MotorStartupParams)
    ensures
        r.flux_current == word_in(reply_at(replies@, 0), 0, 4),
        r.align_current == word_in(reply_at(replies@, 1), 0, 4),
        r.startup_current == word_in(reply_at(replies@, 2), 0, 4),
        r.torque_current == word_in(reply_at(replies@, 3), 0, 4),
        r.speed_start == word_in(reply_at(replies@, 4), 0, 4),
        r.speed_force == word_in(reply_at(replies@, 5), 0, 4),
{
    MotorStartupParams {
        flux_current: reply_word(replies, 0, 0, 4),
        align_current: reply_word(replies, 1, 0, 4),
        startup_current: reply_word(replies, 2, 0, 4),
        torque_current: reply_word(replies, 3, 0, 4),
        speed_start: reply_word(replies, 4, 0, 4),
        speed_force: reply_word(replies, 5, 0, 4),
    }
}

/// The write requests that set the currents and speeds of the start sequence,
/// one per present field.
pub open spec fn startup_params_writes(p: MotorStartupParams) -> Seq<Request> {
    write_of(catalog::SET_FLUX_CURRENT, p.flux_current)
        + write_of(catalog::SET_ALIGN_CURRENT, p.align_current)
        + write_of(catalog::SET_STARTUP_CURRENT, p.startup_current)
        + write_of(catalog::SET_TORQUE_CURRENT, p.torque_current)
        + write_of(catalog::SET_SPEED_START, p.speed_start)
        + write_of(catalog::SET_SPEED_FORCE, p.speed_force)
}

/// The write requests, in order, that set the currents and speeds of the start sequence.
pub fn startup_params_requests(p: &MotorStartupParams) -> (r: Vec<Request>)
    ensures
        r@ == startup_params_writes(*p),
{
    let mut r: Vec<Request> = Vec::new();
    push_write(&mut r, catalog::SET_FLUX_CURRENT, p.flux_current);
    push_write(&mut r, catalog::SET_ALIGN_CURRENT, p.align_current);
    push_write(&mut r, catalog::SET_STARTUP_CURRENT, p.startup_current);
    push_write(&mut r, catalog::SET_TORQUE_CURRENT, p.torque_current);
    push_write(&mut r, catalog::SET_SPEED_START, p.speed_start);
    push_write(&mut r, catalog::SET_SPEED_FORCE, p.speed_force);
    assert(r@ =~= startup_params_writes(*p));
    r
}

/// The fault detection thresholds.
#[derive(Clone, Debug, PartialEq, Eq)]
pub struct MotorFaultChkParams {
    /// The over-current threshold, in mA.
    pub over_current: Option<i32>,
    /// The over-voltage threshold, in mV.
    pub over_voltage: Option<i32>,
    /// The under-voltage threshold, in mV.
    pub under_voltage: Option<i32>,
    /// The overload power, in mW.
    pub over_load_power: Option<i32>,
    /// The stall current, in mA.
    pub stall_current: Option<i32>,
    /// The fault check current, in mA.
    pub fault_ckeck_current: Option<i32>,
    /// The upper speed limit, in 1e-3 Hz.
    pub fail_speed_max: Option<i32>,
    /// The lower speed limit, in 1e-3 Hz.
    pub fail_speed_min: Option<i32>,
}

/// The read commands whose replies give the fault detection thresholds, in order.
pub open spec fn faultchk_params_queries_spec() -> Seq<u8> {
    seq![catalog::GET_OVER_CURRENT_FAULT, catalog::GET_OVER_VOLTAGE_FAULT,
        catalog::GET_UNDER_VOLTAGE_FAULT, catalog::GET_OVER_LOAD_POWER,
        catalog::GET_STALL_CURRENT, catalog::GET_FAULT_CHECK_CURRENT,
        catalog::GET_FAIL_SPEED_MAX, catalog::GET_FAIL_SPEED_MIN]
}

/// The read commands to issue, in order, for the fault detection thresholds.
pub fn faultchk_params_queries() -> (r: Vec<u8>)
    ensures
        r@ == faultchk_params_queries_spec(),
{
    let mut r: Vec<u8> = Vec::new();
    r.push(catalog::GET_OVER_CURRENT_FAULT);
    r.push(catalog::GET_OVER_VOLTAGE_FAULT);
    r.push(catalog::GET_UNDER_VOLTAGE_FAULT);
    r.push(catalog::GET_OVER_LOAD_POWER);
    r.push(catalog::GET_STALL_CURRENT);
    r.push(catalog::GET_FAULT_CHECK_CURRENT);
    r.push(catalog::GET_FAIL_SPEED_MAX);
    r.push(catalog::GET_FAIL_SPEED_MIN);
    assert(r@ =~= faultchk_params_queries_spec());
    r
}

/// Assembles the fault detection thresholds from the replies to
/// `faultchk_params_queries`; reply `i`
/// answers query `i`.
pub fn decode_faultchk_params(replies: &Vec<Option<Vec<u8>>>) -> (r: MotorFaultChkParams)
    ensures
        r.over_current == word_in(reply_at(replies@, 0), 0, 4),
        r.over_voltage == word_in(reply_at(replies@, 1), 0, 4),
        r.under_voltage == word_in(reply_at(replies@, 2), 0, 4),
        r.over_load_power == word_in(reply_at(replies@, 3), 0, 4),
        r.stall_current == word_in(reply_at(replies@, 4), 0, 4),
        r.fault_ckeck_current == word_in(reply_at(replies@, 5), 0, 4),
        r.fail_speed_max == word_in(reply_at(replies@, 6), 0, 4),
        r.fail_speed_min == word_in(reply_at(replies@, 7), 0, 4),
{
    MotorFaultChkParams {
        over_current: reply_word(replies, 0, 0, 4),
        over_voltage: reply_word(replies, 1, 0, 4),
        under_voltage: reply_word(replies, 2, 0, 4),
        over_load_power: reply_word(replies, 3, 0, 4),
        stall_current: reply_word(replies, 4, 0, 4),
        fault_ckeck_current: reply_word(replies, 5, 0, 4),
        fail_speed_max: reply_word(replies, 6, 0, 4),
        fail_speed_min: reply_word(replies, 7, 0, 4),
    }
}

/// The write requests that set the fault detection thresholds, one per present field.
pub open spec fn faultchk_params_writes(p: MotorFaultChkParams) -> Seq<Request> {
    write_of(catalog::SET_OVER_CURRENT_FAULT, p.over_current)
        + write_of(catalog::SET_OVER_VOLTAGE_FAULT, p.over_voltage)
        + write_of(catalog::SET_UNDER_VOLTAGE_FAULT, p.under_voltage)
        + write_of(catalog::SET_OVER_LOAD_POWER, p.over_load_power)
        + write_of(catalog::SET_STALL_CURRENT, p.stall_current)
        + write_of(catalog::SET_FAULT_CHECK_CURRENT, p.fault_ckeck_current)
        + write_of(catalog::SET_FAIL_SPEED_MAX, p.fail_speed_max)
        + write_of(catalog::SET_FAIL_SPEED_MIN, p.fail_speed_min)
}

/// The write requests, in order, that set the fault detection thresholds.
pub fn faultchk_params_requests(p: &MotorFaultChkParams) -> (r: Vec<Request>)
    ensures
        r@ == faultchk_params_writes(*p),
{
    let mut r: Vec<Request> = Vec::new();
    push_write(&mut r, catalog::SET_OVER_CURRENT_FAULT, p.over_current);
    push_write(&mut r, catalog::SET_OVER_VOLTAGE_FAULT, p.over_voltage);
    push_write(&mut r, catalog::SET_UNDER_VOLTAGE_FAULT, p.under_voltage);
    push_write(&mut r, catalog::SET_OVER_LOAD_POWER, p.over_load_power);
    push_write(&mut r, catalog::SET_STALL_CURRENT, p.stall_current);
    push_write(&mut r, catalog::SET_FAULT_CHECK_CURRENT, p.fault_ckeck_current);
    push_write(&mut r, catalog::SET_FAIL_SPEED_MAX, p.fail_speed_max);
    push_write(&mut r, catalog::SET_FAIL_SPEED_MIN, p.fail_speed_min);
    assert(r@ =~= faultchk_params_writes(*p));
    r
}

/// The encoder geometry.
#[derive(Clone, Debug, PartialEq, Eq)]
pub struct MotorEncoderParams {
    /// The encoder slots.
    pub slots: Option<u32>,
}

/// The read commands whose replies give the encoder geometry, in order.
pub open spec fn encoder_params_queries_spec() -> Seq<u8> {
    seq![catalog::GET_ENC_SLOTS]
}

/// The read commands to issue, in order, for the encoder geometry.
pub fn encoder_params_queries() -> (r: Vec<u8>)
    ensures
        r@ == encoder_params_queries_spec(),
{
    let mut r: Vec<u8> = Vec::new();
    r.push(catalog::GET_ENC_SLOTS);
    assert(r@ =~= encoder_params_queries_spec());
    r
}

/// Assembles the encoder geometry from the replies to `encoder_params_queries`; reply `i`
/// answers query `i`.
pub fn decode_encoder_params(replies: &Vec<Option<Vec<u8>>>) -> (r: MotorEncoderParams)
    ensures
        r.slots == count_in(reply_at(replies@, 0), 0, 4),
{
    MotorEncoderParams {
        slots: reply_count(replies, 0, 0, 4),
    }
}

/// The write requests that set the encoder geometry, one per present field.
pub open spec fn encoder_params_writes(p: MotorEncoderParams) -> Seq<Request> {
    write_count_of(catalog::SET_ENC_SLOTS, p.slots)
}

/// The write requests, in order, that set the encoder geometry.
pub fn encoder_params_requests(p: &MotorEncoderParams) -> (r: Vec<Request>)
    ensures
        r@ == encoder_params_writes(*p),
{
    let mut r: Vec<Request> = Vec::new();
    push_write_count(&mut r, catalog::SET_ENC_SLOTS, p.slots);
    assert(r@ =~= encoder_params_writes(*p));
    r
}

/// The calibration of the analog inputs.
#[derive(Clone, Debug, PartialEq, Eq)]
pub struct MotorAdcParams {
    /// The voltage scale, in 1e-6.
    pub vol_scale: Option<i32>,
    /// The current scale, in 1e-6.
    pub cur_scale: Option<i32>,
    /// The voltage filter pole, in 1e-6.
    pub vol_filter_pole: Option<i32>,
    /// The phase A current offset, in 1e-4.
    pub off_a_cur: Option<i32>,
    /// The phase B current offset, in 1e-4.
    pub off_b_cur: Option<i32>,
    /// The phase C current offset, in 1e-4.
    pub off_c_cur: Option<i32>,
    /// The phase A voltage offset, in 1e-8.
    pub off_a_vol: Option<i32>,
    /// The phase B voltage offset, in 1e-8.
    pub off_b_vol: Option<i32>,
    /// The phase C voltage offset, in 1e-8.
    pub off_c_vol: Option<i32>,
}

/// The read commands whose replies give the calibration of the analog inputs, in order.
pub open spec fn adc_params_queries_spec() -> Seq<u8> {
    seq![catalog::GET_ADC_SCALE_VOL, catalog::GET_ADC_SCALE_CUR,
        catalog::GET_ADC_VOL_FILTER_POLE, catalog::GET_ADC_OFF_A_CURRENT,
        catalog::GET_ADC_OFF_B_CURRENT, catalog::GET_ADC_OFF_C_CURRENT,
        catalog::GET_ADC_OFF_A_VOLTAGE, catalog::GET_ADC_OFF_B_VOLTAGE,
        catalog::GET_ADC_OFF_C_VOLTAGE]
}

/// The read commands to issue, in order, for the calibration of the analog inputs.
pub fn adc_params_queries() -> (r: Vec<u8>)
    ensures
        r@ == adc_params_queries_spec(),
{
    let mut r: Vec<u8> = Vec::new();
    r.push(catalog::GET_ADC_SCALE_VOL);
    r.push(catalog::GET_ADC_SCALE_CUR);
    r.push(catalog::GET_ADC_VOL_FILTER_POLE);
    r.push(catalog::GET_ADC_OFF_A_CURRENT);
    r.push(catalog::GET_ADC_OFF_B_CURRENT);
    r.push(catalog::GET_ADC_OFF_C_CURRENT);
    r.push(catalog::GET_ADC_OFF_A_VOLTAGE);
    r.push(catalog::GET_ADC_OFF_B_VOLTAGE);
    r.push(catalog::GET_ADC_OFF_C_VOLTAGE);
    assert(r@ =~= adc_params_queries_spec());
    r
}

/// Assembles the calibration of the analog inputs from the replies to
/// `adc_params_queries`; reply `i`
/// answers query `i`.
pub fn decode_adc_params(replies: &Vec<Option<Vec<u8>>>) -> (r: MotorAdcParams)
    ensures
        r.vol_scale == word_in(reply_at(replies@, 0), 0, 4),
        r.cur_scale == word_in(reply_at(replies@, 1), 0, 4),
        r.vol_filter_pole == word_in(reply_at(replies@, 2), 0, 4),
        r.off_a_cur == word_in(reply_at(replies@, 3), 0, 4),
        r.off_b_cur == word_in(reply_at(replies@, 4), 0, 4),
        r.off_c_cur == word_in(reply_at(replies@, 5), 0, 4),
        r.off_a_vol == word_in(reply_at(replies@, 6), 0, 4),
        r.off_b_vol == word_in(reply_at(replies@, 7), 0, 4),
        r.off_c_vol == word_in(reply_at(replies@, 8), 0, 4),
{
    MotorAdcParams {
        vol_scale: reply_word(replies, 0, 0, 4),
        cur_scale: reply_word(replies, 1, 0, 4),
        vol_filter_pole: reply_word(replies, 2, 0, 4),
        off_a_cur: reply_word(replies, 3, 0, 4),
        off_b_cur: reply_word(replies, 4, 0, 4),
        off_c_cur: reply_word(replies, 5, 0, 4),
        off_a_vol: reply_word(replies, 6, 0, 4),
        off_b_vol: reply_word(replies, 7, 0, 4),
        off_c_vol: reply_word(replies, 8, 0, 4),
    }
}

/// The write requests that set the calibration of the analog inputs, one per
/// present field.
pub open spec fn adc_params_writes(p: MotorAdcParams) -> Seq<Request> {
    write_of(catalog::SET_ADC_SCALE_VOL, p.vol_scale)
        + write_of(catalog::SET_ADC_SCALE_CUR, p.cur_scale)
        + write_of(catalog::SET_ADC_VOL_FILTER_POLE, p.vol_filter_pole)
        + write_of(catalog::SET_ADC_OFF_A_CURRENT, p.off_a_cur)
        + write_of(catalog::SET_ADC_OFF_B_CURRENT, p.off_b_cur)
        + write_of(catalog::SET_ADC_OFF_C_CURRENT, p.off_c_cur)
        + write_of(catalog::SET_ADC_OFF_A_VOLTAGE, p.off_a_vol)
        + write_of(catalog::SET_ADC_OFF_B_VOLTAGE, p.off_b_vol)
        + write_of(catalog::SET_ADC_OFF_C_VOLTAGE, p.off_c_vol)
}

/// The write requests, in order, that set the calibration of the analog inputs.
pub fn adc_params_requests(p: &MotorAdcParams) -> (r: Vec<Request>)
    ensures
        r@ == adc_params_writes(*p),
{
    let mut r: Vec<Request> = Vec::new();
    push_write(&mut r, catalog::SET_ADC_SCALE_VOL, p.vol_scale);
    push_write(&mut r, catalog::SET_ADC_SCALE_CUR, p.cur_scale);
    push_write(&mut r, catalog::SET_ADC_VOL_FILTER_POLE, p.vol_filter_pole);
    push_write(&mut r, catalog::SET_ADC_OFF_A_CURRENT, p.off_a_cur);
    push_write(&mut r, catalog::SET_ADC_OFF_B_CURRENT, p.off_b_cur);
    push_write(&mut r, catalog::SET_ADC_OFF_C_CURRENT, p.off_c_cur);
    push_write(&mut r, catalog::SET_ADC_OFF_A_VOLTAGE, p.off_a_vol);
    push_write(&mut r, catalog::SET_ADC_OFF_B_VOLTAGE, p.off_b_vol);
    push_write(&mut r, catalog::SET_ADC_OFF_C_VOLTAGE, p.off_c_vol);
    assert(r@ =~= adc_params_writes(*p));
    r
}

/// Bus voltage of the drive.
#[derive(Clone, Debug, PartialEq, Eq)]
pub struct MotorParams {
    /// The DC bus voltage, in mV.
    pub vdc_bus: Option<i32>,
}

/// Assembles the bus voltage from the reply to `GET_VDC_BUS`.
pub fn decode_motor_params(reply: &Option<Vec<u8>>) -> (r: MotorParams)
    ensures
        r.vdc_bus == word_in(reply_view(*reply), 0, 4),
{
    MotorParams { vdc_bus: reading_word(reply) }
}

/// Identification, control gains, ramps and firmware version of the drive.
#[derive(Clone, Debug, PartialEq, Eq)]
pub struct MotorStaticParams {
    /// The stator resistance, in 1e-8 ohm.
    pub rs: Option<i32>,
    /// The d-axis inductance, in 1e-8 H.
    pub ls_d: Option<i32>,
    /// The q-axis inductance, in 1e-8 H.
    pub ls_q: Option<i32>,
    /// The rotor flux, in 1e-8 Wb.
    pub flux: Option<i32>,
    /// The pole pairs.
    pub poles: Option<u32>,
    /// The speed loop proportional gain, in 1e-8.
    pub kp_spd: Option<i32>,
    /// The speed loop integral gain, in 1e-8.
    pub ki_spd: Option<i32>,
    /// The current loop proportional gain, in 1e-8.
    pub kp_iq: Option<i32>,
    /// The current loop integral gain, in 1e-8.
    pub ki_iq: Option<i32>,
    /// The firmware main version.
    pub main_version: Option<u8>,
    /// The firmware sub version.
    pub sub_version: Option<u8>,
    /// The firmware revision.
    pub rev_version: Option<u8>,
    /// The firmware stage, an ASCII letter.
    pub stage_version: Option<u8>,
    /// The firmware build date, as the drive encodes it.
    pub version_date: Option<u32>,
    /// The maximum acceleration, in 1e-3 Hz/s.
    pub acc_max_hzps: Option<i32>,
    /// The acceleration at start, in 1e-3 Hz/s.
    pub acc_start_hzps: Option<i32>,
}

/// The read commands whose replies give the static parameters, in order.
pub open spec fn static_params_queries_spec() -> Seq<u8> {
    seq![
        catalog::GET_PARAM_RS,
        catalog::GET_VERSION,
        catalog::GET_VERSION_DATE,
        catalog::GET_PARAM_LS_D,
        catalog::GET_PARAM_LS_Q,
        catalog::GET_PARAM_FLUX,
        catalog::GET_POLE_PAIRS,
        catalog::GET_ACC_START,
        catalog::GET_ACC_MAX,
        catalog::GET_PID_SPD,
        catalog::GET_PID_IQ,
    ]
}

/// The read commands to issue, in order, for the static parameters.
pub fn static_params_queries() -> (r: Vec<u8>)
    ensures
        r@ == static_params_queries_spec(),
{
    let mut r: Vec<u8> = Vec::new();
    r.push(catalog::GET_PARAM_RS);
    r.push(catalog::GET_VERSION);
    r.push(catalog::GET_VERSION_DATE);
    r.push(catalog::GET_PARAM_LS_D);
    r.push(catalog::GET_PARAM_LS_Q);
    r.push(catalog::GET_PARAM_FLUX);
    r.push(catalog::GET_POLE_PAIRS);
    r.push(catalog::GET_ACC_START);
    r.push(catalog::GET_ACC_MAX);
    r.push(catalog::GET_PID_SPD);
    r.push(catalog::GET_PID_IQ);
    assert(r@ =~= static_params_queries_spec());
    r
}

/// Assembles the static parameters from the replies to
/// `static_params_queries`, reply `i` answering query `i`. The version reply
/// holds four single bytes; each gain reply holds the proportional then the
/// integral gain and counts only when both are there.
pub fn decode_static_params(replies: &Vec<Option<Vec<u8>>>) -> (r: MotorStaticParams)
    ensures
        r.rs == word_in(reply_at(replies@, 0), 0, 4),
        r.main_version == byte_in(reply_at(replies@, 1), 0),
        r.sub_version == byte_in(reply_at(replies@, 1), 1),
        r.rev_version == byte_in(reply_at(replies@, 1), 2),
        r.stage_version == byte_in(reply_at(replies@, 1), 3),
        r.version_date == count_in(reply_at(replies@, 2), 0, 4),
        r.ls_d == word_in(reply_at(replies@, 3), 0, 4),
        r.ls_q == word_in(reply_at(replies@, 4), 0, 4),
        r.flux == word_in(reply_at(replies@, 5), 0, 4),
        r.poles == count_in(reply_at(replies@, 6), 0, 4),
        r.acc_start_hzps == word_in(reply_at(replies@, 7), 0, 4),
        r.acc_max_hzps == word_in(reply_at(replies@, 8), 0, 4),
        r.kp_spd == word_in(reply_at(replies@, 9), 0, 8),
        r.ki_spd == word_in(reply_at(replies@, 9), 4, 8),
        r.kp_iq == word_in(reply_at(replies@, 10), 0, 8),
        r.ki_iq == word_in(reply_at(replies@, 10), 4, 8),
{
    MotorStaticParams {
        rs: reply_word(replies, 0, 0, 4),
        ls_d: reply_word(replies, 3, 0, 4),
        ls_q: reply_word(replies, 4, 0, 4),
        flux: reply_word(replies, 5, 0, 4),
        poles: reply_count(replies, 6, 0, 4),
        kp_spd: reply_word(replies, 9, 0, 8),
        ki_spd: reply_word(replies, 9, 4, 8),
        kp_iq: reply_word(replies, 10, 0, 8),
        ki_iq: reply_word(replies, 10, 4, 8),
        main_version: reply_byte(replies, 1, 0),
        sub_version: reply_byte(replies, 1, 1),
        rev_version: reply_byte(replies, 1, 2),
        stage_version: reply_byte(replies, 1, 3),
        version_date: reply_count(replies, 2, 0, 4),
        acc_max_hzps: reply_word(replies, 8, 0, 4),
        acc_start_hzps: reply_word(replies, 7, 0, 4),
    }
}

/// The name of a motor state code.
pub open spec fn motor_state_text(state: u8) -> Seq<char> {
    if state == 0 {
        "STOP_IDLE"@
    } else if state == 1 {
        "BRAKE_STOP"@
    } else if state == 2 {
        "SEEK_POS"@
    } else if state == 3 {
        "ALIGNMENT"@
    } else if state == 4 {
        "OL_START"@
    } else if state == 5 {
        "CL_RUNNING"@
    } else {
        "CTRL_RUN"@
    }
}

/// The name of a motor-control state code.
pub open spec fn mctrl_state_text(state: u8) -> Seq<char> {
    if state == 0 {
        "INIT_SET"@
    } else if state == 1 {
        "FAULT_STOP"@
    } else if state == 2 {
        "BRAKE_STOP"@
    } else if state == 3 {
        "FIRST_RUN"@
    } else if state == 4 {
        "NORM_STOP"@
    } else {
        "CONT_RUN"@
    }
}

/// Names a motor state code; codes past the last known one are `CTRL_RUN`.
pub fn motor_state_to_string(state: u8) -> (r: String)
    ensures
        r@ == motor_state_text(state),
{
    if state == 0 {
        "STOP_IDLE".to_owned()
    } else if state == 1 {
        "BRAKE_STOP".to_owned()
    } else if state == 2 {
        "SEEK_POS".to_owned()
    } else if state == 3 {
        "ALIGNMENT".to_owned()
    } else if state == 4 {
        "OL_START".to_owned()
    } else if state == 5 {
        "CL_RUNNING".to_owned()
    } else {
        "CTRL_RUN".to_owned()
    }
}

/// Names a motor-control state code; codes past the last known one are
/// `CONT_RUN`.
pub fn mctrl_state_to_string(state: u8) -> (r: String)
    ensures
        r@ == mctrl_state_text(state),
{
    if state == 0 {
        "INIT_SET".to_owned()
    } else if state == 1 {
        "FAULT_STOP".to_owned()
    } else if state == 2 {
        "BRAKE_STOP".to_owned()
    } else if state == 3 {
        "FIRST_RUN".to_owned()
    } else if state == 4 {
        "NORM_STOP".to_owned()
    } else {
        "CONT_RUN".to_owned()
    }
}

/// Run state and fault code of the drive.
#[derive(Clone, Debug, PartialEq, Eq)]
pub struct MotorStatus {
    /// Whether the motor parameters have been identified.
    pub identified: Option<bool>,
    /// The fault code; zero when the drive reports no fault.
    pub error_code: Option<u16>,
    /// The name of the motor state.
    pub motor_state: Option<String>,
    /// The name of the motor-control state.
    pub mctrl_state: Option<String>,
    /// Whether online resistance estimation is on.
    pub rsonline_en: Option<bool>,
    /// Whether resistance recalculation is on.
    pub rsrecalc_en: Option<bool>,
}

/// Whether a reply holds the four bytes that a status reply has.
pub open spec fn full_reply(reply: Option<Vec<u8>>) -> bool {
    match reply {
        Some(p) => p@.len() >= 4,
        None => false,
    }
}

/// The payload of a reply known to be present.
pub open spec fn payload_of(reply: Option<Vec<u8>>) -> Seq<u8> {
    match reply {
        Some(p) => p@,
        None => seq![],
    }
}

/// Assembles the drive status from the replies to `GET_MOTOR_STATUS`
/// (fault code in bytes 1..3, motor state in byte 3) and `GET_MCTRL_STATUS`
/// (control state, then the identified, online-estimation and recalculation
/// flags).
pub fn decode_status(status: &Option<Vec<u8>>, mctrl: &Option<Vec<u8>>) -> (r: MotorStatus)
    ensures
        full_reply(*status) ==> {
            let p = payload_of(*status);
            &&& r.error_code == Some(i16_from_be(p.subrange(1, 3)) as u16)
            &&& r.motor_state matches Some(t) && t@ == motor_state_text(p[3])
        },
        !full_reply(*status) ==> r.error_code is None && r.motor_state is None,
        full_reply(*mctrl) ==> {
            let p = payload_of(*mctrl);
            &&& r.mctrl_state matches Some(t) && t@ == mctrl_state_text(p[0])
            &&& r.identified == Some(p[1] != 0)
            &&& r.rsonline_en == Some(p[2] != 0)
            &&& r.rsrecalc_en == Some(p[3] != 0)
        },
        !full_reply(*mctrl) ==> r.mctrl_state is None && r.identified is None
            && r.rsonline_en is None && r.rsrecalc_en is None,
{
    let mut r = MotorStatus {
        identified: None,
        error_code: None,
        motor_state: None,
        mctrl_state: None,
        rsonline_en: None,
        rsrecalc_en: None,
    };
    if let Some(p) = status {
        if p.len() >= 4 {
            let code = vec_to_short(&p.as_slice()[1..3]);
            r.error_code = Some(#[verifier::truncate] (code as u16));
            r.motor_state = Some(motor_state_to_string(p[3]));
        }
    }
    if let Some(p) = mctrl {
        if p.len() >= 4 {
            r.mctrl_state = Some(mctrl_state_to_string(p[0]));
            r.identified = Some(p[1] != 0);
            r.rsonline_en = Some(p[2] != 0);
            r.rsrecalc_en = Some(p[3] != 0);
        }
    }
    r
}

/// All tunable parameter groups of the drive.
#[derive(Clone, Debug, PartialEq, Eq)]
pub struct MotorSpecialParams {
    pub feature_param: MotorFeatureParams,
    pub startup_param: MotorStartupParams,
    pub fault_check_param: MotorFaultChkParams,
    pub encoder_param: MotorEncoderParams,
    pub adc_param: MotorAdcParams,
}

/// The write requests that set every group, group after group.
pub open spec fn special_params_writes(p: MotorSpecialParams) -> Seq<Request> {
    feature_params_writes(p.feature_param) + startup_params_writes(p.startup_param)
        + faultchk_params_writes(p.fault_check_param) + encoder_params_writes(
        p.encoder_param,
    ) + adc_params_writes(p.adc_param)
}

/// The write requests, in order, that set every parameter group.
pub fn special_params_requests(p: &MotorSpecialParams) -> (r: Vec<Request>)
    ensures
        r@ == special_params_writes(*p),
{
    let mut r = feature_params_requests(&p.feature_param);
    let mut v = startup_params_requests(&p.startup_param);
    r.append(&mut v);
    let mut v = faultchk_params_requests(&p.fault_check_param);
    r.append(&mut v);
    let mut v = encoder_params_requests(&p.encoder_param);
    r.append(&mut v);
    let mut v = adc_params_requests(&p.adc_param);
    r.append(&mut v);
    r
}

/// A field value put on the wire and read back decodes to itself: the
/// argument bytes of a write request hold it, signed words come back
/// exactly, and counts through their 32-bit pattern.
pub proof fn lemma_field_round_trip(cmd: u8, v: i32, n: u32)
    ensures
        request_frame(cmd, v).subrange(4, 8) == be_i32(v),
        word_in(Some(request_frame(cmd, v).subrange(4, 8)), 0, 4) == Some(v),
        count_in(Some(be_i32(n as i32)), 0, 4) == Some(n),
{
    assert(request_frame(cmd, v).subrange(4, 8) =~= be_i32(v));
    lemma_i32_round_trip(v);
    lemma_i32_round_trip(n as i32);
    assert(be_i32(v).subrange(0, 4) =~= be_i32(v));
    assert(be_i32(n as i32).subrange(0, 4) =~= be_i32(n as i32));
    assert((n as i32) as u32 == n) by (bit_vector);
}

} // verus!
