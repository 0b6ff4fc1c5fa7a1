//! The command catalog of the motor link: one code per operation.
//!
//! Codes of read commands count up from `0x00`, codes of write commands
//! from `0x80`; a new entry needs no change to the framing.

use vstd::prelude::*;

verus! {

pub const GET_MOTOR_RPS: u8 = 0x00;
pub const GET_MOTOR_POS: u8 = 0x01;
pub const GET_VERSION: u8 = 0x02;
pub const GET_VERSION_DATE: u8 = 0x03;
pub const GET_PARAM_RS: u8 = 0x04;
pub const GET_PARAM_RS_ONLINE: u8 = 0x05;
pub const GET_PARAM_LS_D: u8 = 0x06;
pub const GET_PARAM_LS_Q: u8 = 0x07;
pub const GET_PARAM_FLUX: u8 = 0x08;
pub const GET_MOTOR_STATUS: u8 = 0x09;
pub const GET_MCTRL_STATUS: u8 = 0x0a;
pub const GET_POLE_PAIRS: u8 = 0x0b;
pub const GET_TORQUE: u8 = 0x0c;
pub const GET_VDC_BUS: u8 = 0x0d;
pub const GET_IA0: u8 = 0x0e;
pub const GET_IA1: u8 = 0x0f;
pub const GET_IA2: u8 = 0x10;
pub const GET_VV0: u8 = 0x11;
pub const GET_VV1: u8 = 0x12;
pub const GET_VV2: u8 = 0x13;
pub const GET_ACC_START: u8 = 0x14;
pub const GET_ACC_MAX: u8 = 0x15;
pub const GET_PID_SPD: u8 = 0x16;
pub const GET_PID_IQ: u8 = 0x17;
pub const GET_RES_EST_CURRENT: u8 = 0x18;
pub const GET_IND_EST_CURRENT: u8 = 0x19;
pub const GET_MAX_CURRENT: u8 = 0x1a;
pub const GET_FLUX_EXEC_FREQ: u8 = 0x1b;
pub const GET_WBP_KGM2: u8 = 0x1c;
pub const GET_RATED_VOLTAGE: u8 = 0x1d;
pub const GET_FLUX_CURRENT: u8 = 0x1e;
pub const GET_ALIGN_CURRENT: u8 = 0x1f;
pub const GET_STARTUP_CURRENT: u8 = 0x20;
pub const GET_TORQUE_CURRENT: u8 = 0x21;
pub const GET_SPEED_START: u8 = 0x22;
pub const GET_SPEED_FORCE: u8 = 0x23;
pub const GET_OVER_CURRENT_FAULT: u8 = 0x24;
pub const GET_OVER_VOLTAGE_FAULT: u8 = 0x25;
pub const GET_UNDER_VOLTAGE_FAULT: u8 = 0x26;
pub const GET_OVER_LOAD_POWER: u8 = 0x27;
pub const GET_STALL_CURRENT: u8 = 0x28;
pub const GET_FAULT_CHECK_CURRENT: u8 = 0x29;
pub const GET_FAIL_SPEED_MAX: u8 = 0x2a;
pub const GET_FAIL_SPEED_MIN: u8 = 0x2b;
pub const GET_ENC_SLOTS: u8 = 0x2c;
pub const GET_ADC_SCALE_VOL: u8 = 0x2d;
pub const GET_ADC_SCALE_CUR: u8 = 0x2e;
pub const GET_ADC_VOL_FILTER_POLE: u8 = 0x2f;
pub const GET_ADC_OFF_A_CURRENT: u8 = 0x30;
pub const GET_ADC_OFF_B_CURRENT: u8 = 0x31;
pub const GET_ADC_OFF_C_CURRENT: u8 = 0x32;
pub const GET_ADC_OFF_A_VOLTAGE: u8 = 0x33;
pub const GET_ADC_OFF_B_VOLTAGE: u8 = 0x34;
pub const GET_ADC_OFF_C_VOLTAGE: u8 = 0x35;

pub const SET_MOTOR_SPEED_RPS: u8 = 0x80;
pub const SET_MOTOR_SPEED_HZ: u8 = 0x81;
pub const SET_MOTOR_START: u8 = 0x82;
pub const SET_MOTOR_STOP: u8 = 0x83;
pub const SET_MOTOR_RESET: u8 = 0x84;
pub const SET_ENABLE_IDENTIFY: u8 = 0x85;
pub const SET_ENABLE_RS_ONLINE: u8 = 0x86;
pub const SET_ENABLE_RS_RECALC: u8 = 0x87;
pub const SET_CLEAR_FAULTS: u8 = 0x88;
pub const SET_ACC_MAX: u8 = 0x89;
pub const SET_ACC_START: u8 = 0x8a;
pub const SET_KP_SPD: u8 = 0x8b;
pub const SET_KI_SPD: u8 = 0x8c;
pub const SET_KP_IQ: u8 = 0x8d;
pub const SET_KI_IQ: u8 = 0x8e;
pub const SET_ENABLE_POS_CTRL: u8 = 0x8f;
pub const SET_MOTOR_POSITION: u8 = 0x90;
pub const SET_PARAM_RS: u8 = 0x91;
pub const SET_PARAM_LS_D: u8 = 0x92;
pub const SET_PARAM_LS_Q: u8 = 0x93;
pub const SET_PARAM_FLUX: u8 = 0x94;
pub const SET_POLE_PAIRS: u8 = 0x95;
pub const SET_RES_EST_CURRENT: u8 = 0x96;
pub const SET_IND_EST_CURRENT: u8 = 0x97;
pub const SET_MAX_CURRENT: u8 = 0x98;
pub const SET_FLUX_EXEC_FREQ: u8 = 0x99;
pub const SET_WBP_KGM2: u8 = 0x9a;
pub const SET_RATED_VOLTAGE: u8 = 0x9b;
pub const SET_FLUX_CURRENT: u8 = 0x9c;
pub const SET_ALIGN_CURRENT: u8 = 0x9d;
pub const SET_STARTUP_CURRENT: u8 = 0x9e;
pub const SET_TORQUE_CURRENT: u8 = 0x9f;
pub const SET_SPEED_START: u8 = 0xa0;
pub const SET_SPEED_FORCE: u8 = 0xa1;
pub const SET_OVER_CURRENT_FAULT: u8 = 0xa2;
pub const SET_OVER_VOLTAGE_FAULT: u8 = 0xa3;
pub const SET_UNDER_VOLTAGE_FAULT: u8 = 0xa4;
pub const SET_OVER_LOAD_POWER: u8 = 0xa5;
pub const SET_STALL_CURRENT: u8 = 0xa6;
pub const SET_FAULT_CHECK_CURRENT: u8 = 0xa7;
pub const SET_FAIL_SPEED_MAX: u8 = 0xa8;
pub const SET_FAIL_SPEED_MIN: u8 = 0xa9;
pub const SET_ENC_SLOTS: u8 = 0xaa;
pub const SET_ADC_SCALE_VOL: u8 = 0xab;
pub const SET_ADC_SCALE_CUR: u8 = 0xac;
pub const SET_ADC_VOL_FILTER_POLE: u8 = 0xad;
pub const SET_ADC_OFF_A_CURRENT: u8 = 0xae;
pub const SET_ADC_OFF_B_CURRENT: u8 = 0xaf;
pub const SET_ADC_OFF_C_CURRENT: u8 = 0xb0;
pub const SET_ADC_OFF_A_VOLTAGE: u8 = 0xb1;
pub const SET_ADC_OFF_B_VOLTAGE: u8 = 0xb2;
pub const SET_ADC_OFF_C_VOLTAGE: u8 = 0xb3;

} // verus!
