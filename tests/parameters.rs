use motor_link::catalog;
use motor_link::params::{
    decode_feature_params, decode_motor_params, decode_static_params, decode_status,
    encoder_params_requests, feature_params_queries, feature_params_requests,
    mctrl_state_to_string, motor_state_to_string, reading_word, special_params_requests,
    static_params_queries, MotorAdcParams, MotorFaultChkParams, MotorFeatureParams,
    MotorSpecialParams, MotorStartupParams, Request,
};
use motor_link::{MotorEncoderParams, MotorStatus};

fn word(v: i32) -> Vec<u8> {
    v.to_be_bytes().to_vec()
}

#[test]
fn static_queries_in_order() {
    assert_eq!(
        static_params_queries(),
        vec![
            catalog::GET_PARAM_RS,
            catalog::GET_VERSION,
            catalog::GET_VERSION_DATE,
            catalog::GET_PARAM_LS_D,
            catalog::GET_PARAM_LS_Q,
            catalog::GET_PARAM_FLUX,
            catalog::GET_POLE_PAIRS,
            catalog::GET_ACC_START,
            catalog::GET_ACC_MAX,
            catalog::GET_PID_SPD,
            catalog::GET_PID_IQ,
        ]
    );
    assert_eq!(catalog::GET_PARAM_RS, 0x04);
    assert_eq!(catalog::SET_MOTOR_SPEED_RPS, 0x80);
    assert_eq!(catalog::SET_ACC_MAX, 0x89);
}

#[test]
fn static_params_from_replies() {
    let mut pid = word(150_000_000);
    pid.extend(word(-3));
    let replies = vec![
        Some(word(12_345_678)),
        Some(vec![1, 2, 3, b'b']),
        Some(word(20240131)),
        Some(word(100)),
        None,
        Some(vec![1, 2]),
        Some(word(4)),
        Some(word(-2500)),
        Some(word(5000)),
        Some(pid),
        Some(word(7)),
    ];
    let p = decode_static_params(&replies);
    assert_eq!(p.rs, Some(12_345_678));
    assert_eq!(p.main_version, Some(1));
    assert_eq!(p.sub_version, Some(2));
    assert_eq!(p.rev_version, Some(3));
    assert_eq!(p.stage_version, Some(b'b'));
    assert_eq!(p.version_date, Some(20240131));
    assert_eq!(p.ls_d, Some(100));
    assert_eq!(p.ls_q, None);
    assert_eq!(p.flux, None);
    assert_eq!(p.poles, Some(4));
    assert_eq!(p.acc_start_hzps, Some(-2500));
    assert_eq!(p.acc_max_hzps, Some(5000));
    assert_eq!(p.kp_spd, Some(150_000_000));
    assert_eq!(p.ki_spd, Some(-3));
    // a gain reply of four bytes holds only half a pair
    assert_eq!(p.kp_iq, None);
    assert_eq!(p.ki_iq, None);
}

#[test]
fn missing_replies_give_none() {
    let p = decode_feature_params(&vec![]);
    assert_eq!(p.poles, None);
    assert_eq!(p.rated_voltage, None);
    assert_eq!(feature_params_queries().len(), 11);
}

#[test]
fn single_readings() {
    assert_eq!(reading_word(&Some(word(-1000))), Some(-1000));
    assert_eq!(reading_word(&Some(vec![0, 0, 1])), None);
    assert_eq!(reading_word(&None), None);
    assert_eq!(decode_motor_params(&Some(word(24000))).vdc_bus, Some(24000));
}

#[test]
fn status_from_replies() {
    let s = decode_status(&Some(vec![0, 0x01, 0x02, 5]), &Some(vec![4, 1, 0, 1]));
    assert_eq!(
        s,
        MotorStatus {
            identified: Some(true),
            error_code: Some(0x0102),
            motor_state: Some("CL_RUNNING".to_string()),
            mctrl_state: Some("NORM_STOP".to_string()),
            rsonline_en: Some(false),
            rsrecalc_en: Some(true),
        }
    );
    let s = decode_status(&None, &Some(vec![9, 0, 0]));
    assert_eq!(s.error_code, None);
    assert_eq!(s.motor_state, None);
    assert_eq!(s.mctrl_state, None);
    assert_eq!(s.identified, None);
}

#[test]
fn state_names() {
    assert_eq!(motor_state_to_string(0), "STOP_IDLE");
    assert_eq!(motor_state_to_string(3), "ALIGNMENT");
    assert_eq!(motor_state_to_string(200), "CTRL_RUN");
    assert_eq!(mctrl_state_to_string(1), "FAULT_STOP");
    assert_eq!(mctrl_state_to_string(77), "CONT_RUN");
}

fn feature() -> MotorFeatureParams {
    MotorFeatureParams {
        poles: Some(4),
        rs_ohm: Some(50_000_000),
        ls_d: Some(1_000),
        ls_q: Some(2_000),
        rated_flux: None,
        res_est_current: Some(1_500),
        ind_est_current: Some(1_000),
        max_current: Some(10_000),
        flux_exec_freq: Some(20_000),
        wbp_kgm2: Some(1),
        rated_voltage: Some(24_000),
    }
}

#[test]
fn feature_writes_skip_absent_fields() {
    let r = feature_params_requests(&feature());
    assert_eq!(r.len(), 10);
    assert_eq!(r[0], Request { cmd: catalog::SET_POLE_PAIRS, value: 4 });
    assert_eq!(r[1], Request { cmd: catalog::SET_PARAM_RS, value: 50_000_000 });
    assert_eq!(r[2], Request { cmd: catalog::SET_PARAM_LS_D, value: 1_000 });
    assert_eq!(r[3], Request { cmd: catalog::SET_PARAM_LS_Q, value: 2_000 });
    assert_eq!(r[4], Request { cmd: catalog::SET_RES_EST_CURRENT, value: 1_500 });
    assert_eq!(r[9], Request { cmd: catalog::SET_RATED_VOLTAGE, value: 24_000 });
}

#[test]
fn encoder_count_sent_as_bit_pattern() {
    let r = encoder_params_requests(&MotorEncoderParams { slots: Some(u32::MAX) });
    assert_eq!(r, vec![Request { cmd: catalog::SET_ENC_SLOTS, value: -1 }]);
}

#[test]
fn special_writes_group_after_group() {
    let p = MotorSpecialParams {
        feature_param: feature(),
        startup_param: MotorStartupParams {
            flux_current: Some(1),
            align_current: Some(2),
            startup_current: Some(3),
            torque_current: Some(4),
            speed_start: Some(5),
            speed_force: Some(6),
        },
        fault_check_param: MotorFaultChkParams {
            over_current: None,
            over_voltage: None,
            under_voltage: None,
            over_load_power: None,
            stall_current: None,
            fault_ckeck_current: None,
            fail_speed_max: None,
            fail_speed_min: Some(-7),
        },
        encoder_param: MotorEncoderParams { slots: Some(1024) },
        adc_param: MotorAdcParams {
            vol_scale: Some(8),
            cur_scale: None,
            vol_filter_pole: None,
            off_a_cur: None,
            off_b_cur: None,
            off_c_cur: None,
            off_a_vol: None,
            off_b_vol: None,
            off_c_vol: Some(9),
        },
    };
    let r = special_params_requests(&p);
    assert_eq!(r.len(), 10 + 6 + 1 + 1 + 2);
    assert_eq!(r[10], Request { cmd: catalog::SET_FLUX_CURRENT, value: 1 });
    assert_eq!(r[16], Request { cmd: catalog::SET_FAIL_SPEED_MIN, value: -7 });
    assert_eq!(r[17], Request { cmd: catalog::SET_ENC_SLOTS, value: 1024 });
    assert_eq!(r[18], Request { cmd: catalog::SET_ADC_SCALE_VOL, value: 8 });
    assert_eq!(r[19], Request { cmd: catalog::SET_ADC_OFF_C_VOLTAGE, value: 9 });
}
