use nitora::device::{model_identifier_from_bytes, ModelError};
use nitora::display::describe_display;
use nitora::gamma::{capture_buffer_len, captured_sample_count, check_apply_status, GammaError};

#[test]
fn model_identifier_trims_nul_bytes() {
    assert_eq!(model_identifier_from_bytes(b"Mac16,1\0".to_vec()), Ok("Mac16,1".to_string()));
    assert_eq!(model_identifier_from_bytes(b"\0\0MacBookPro18,3\0\0".to_vec()), Ok("MacBookPro18,3".to_string()));
    assert_eq!(model_identifier_from_bytes(b"Mac\0x\0".to_vec()), Ok("Mac\0x".to_string()));
}

#[test]
fn model_identifier_empty() {
    assert_eq!(model_identifier_from_bytes(Vec::new()), Err(ModelError::Empty));
    assert_eq!(model_identifier_from_bytes(b"\0\0\0".to_vec()), Err(ModelError::Empty));
}

#[test]
fn model_identifier_not_utf8() {
    assert_eq!(model_identifier_from_bytes(vec![0x4d, 0xff, 0x00]), Err(ModelError::NotUtf8));
    assert_eq!(model_identifier_from_bytes(vec![0xc3]), Err(ModelError::NotUtf8));
}

#[test]
fn model_identifier_keeps_unicode() {
    assert_eq!(model_identifier_from_bytes("Mäc\0".as_bytes().to_vec()), Ok("Mäc".to_string()));
}

#[test]
fn display_names() {
    let d = describe_display(1, true, true);
    assert_eq!((d.id, d.built_in, d.name.as_str()), (1, true, "Built-in Display"));
    let d = describe_display(69733382, false, true);
    assert_eq!((d.id, d.built_in, d.name.as_str()), (69733382, false, "Display 69733382 (Main)"));
    let d = describe_display(2, false, false);
    assert_eq!(d.name, "Display 2");
    let d = describe_display(0, false, false);
    assert_eq!(d.name, "Display 0");
}

#[test]
fn gamma_capture_needs_capacity() {
    assert_eq!(capture_buffer_len(5, 0), Err(GammaError::NoCapacity { display_id: 5 }));
    assert_eq!(capture_buffer_len(5, 1024), Ok(1024));
}

#[test]
fn gamma_capture_keeps_reported_samples() {
    assert_eq!(captured_sample_count(5, 1024, 0, 256), Ok(256));
    assert_eq!(captured_sample_count(5, 256, 0, 1024), Ok(256));
    assert_eq!(captured_sample_count(5, 256, 0, 0), Ok(0));
    assert_eq!(
        captured_sample_count(5, 256, 1001, 256),
        Err(GammaError::CaptureFailed { display_id: 5, status: 1001 })
    );
}

#[test]
fn gamma_apply_status() {
    assert_eq!(check_apply_status(3, 0), Ok(()));
    assert_eq!(check_apply_status(3, 1004), Err(GammaError::ApplyFailed { display_id: 3, status: 1004 }));
}
