use pam_conv::converse;
use pam_conv::PamMessage;
use pam_conv::PamMessageStyle;
use pam_conv::PamResponse;
use pam_conv::PamReturnCode;
use pam_conv::PasswordConv;
use pam_conv::types::contains_nul;
use pam_conv::types::copy_bytes;
use pam_conv::types::style_from_code;
use pam_conv::types::PAM_BUF_ERR;
use pam_conv::types::PAM_CONV_ERR;
use pam_conv::types::PAM_SUCCESS;

fn msg(style: i32, text: &[u8]) -> PamMessage {
    PamMessage { msg_style: style, msg: text.to_vec() }
}

fn handler(login: &[u8], passwd: &[u8]) -> PasswordConv {
    let mut h = PasswordConv::new();
    h.set_credentials(login.to_vec(), passwd.to_vec());
    h
}

fn slot_texts(resps: &[PamResponse]) -> Vec<Option<Vec<u8>>> {
    resps.iter().map(|r| r.resp.clone()).collect()
}

#[test]
fn empty_round_succeeds() {
    let mut h = handler(b"alice", b"secret");
    let msgs: Vec<PamMessage> = Vec::new();
    let (status, resps) = converse(&mut h, &msgs);
    assert_eq!(status, PamReturnCode::Success);
    let resps = resps.expect("an empty round publishes a response array");
    assert_eq!(resps.len(), 0);
}

#[test]
fn login_password_round() {
    let mut h = handler(b"alice", b"secret");
    let msgs = vec![
        msg(PamMessageStyle::PromptEchoOn.code(), b"login?"),
        msg(PamMessageStyle::PromptEchoOff.code(), b"password?"),
    ];
    let (status, resps) = converse(&mut h, &msgs);
    assert_eq!(status, PamReturnCode::Success);
    let resps = resps.expect("a successful round publishes a response array");
    assert_eq!(
        slot_texts(&resps),
        vec![Some(b"alice".to_vec()), Some(b"secret".to_vec())]
    );
}

#[test]
fn error_message_fails_round() {
    let mut h = handler(b"alice", b"secret");
    let msgs = vec![
        msg(PamMessageStyle::PromptEchoOn.code(), b"login?"),
        msg(PamMessageStyle::ErrorMsg.code(), b"locked out"),
    ];
    let (status, resps) = converse(&mut h, &msgs);
    assert_eq!(status, PamReturnCode::ConvErr);
    assert!(resps.is_none());
}

#[test]
fn error_message_first_fails_round() {
    let mut h = handler(b"alice", b"secret");
    let msgs = vec![
        msg(PamMessageStyle::ErrorMsg.code(), b"down for maintenance"),
        msg(PamMessageStyle::PromptEchoOn.code(), b"login?"),
    ];
    let (status, resps) = converse(&mut h, &msgs);
    assert_eq!(status, PamReturnCode::ConvErr);
    assert!(resps.is_none());
}

#[test]
fn info_slot_left_unset() {
    let mut h = handler(b"alice", b"secret");
    let msgs = vec![
        msg(PamMessageStyle::TextInfo.code(), b"welcome"),
        msg(PamMessageStyle::PromptEchoOn.code(), b"login?"),
    ];
    let (status, resps) = converse(&mut h, &msgs);
    assert_eq!(status, PamReturnCode::Success);
    let resps = resps.expect("a successful round publishes a response array");
    assert_eq!(slot_texts(&resps), vec![None, Some(b"alice".to_vec())]);
}

#[test]
fn nul_in_login_fails_echo_prompt() {
    let mut h = handler(b"ali\0ce", b"secret");
    let msgs = vec![msg(PamMessageStyle::PromptEchoOn.code(), b"login?")];
    let (status, resps) = converse(&mut h, &msgs);
    assert_eq!(status, PamReturnCode::ConvErr);
    assert!(resps.is_none());
}

#[test]
fn nul_in_password_fails_blind_prompt() {
    let mut h = handler(b"alice", b"sec\0ret");
    let msgs = vec![msg(PamMessageStyle::PromptEchoOff.code(), b"password?")];
    let (status, resps) = converse(&mut h, &msgs);
    assert_eq!(status, PamReturnCode::ConvErr);
    assert!(resps.is_none());
}

#[test]
fn unknown_style_code_fails_round() {
    let mut h = handler(b"alice", b"secret");
    let msgs = vec![msg(99, b"?")];
    let (status, resps) = converse(&mut h, &msgs);
    assert_eq!(status, PamReturnCode::ConvErr);
    assert!(resps.is_none());
}

#[test]
fn style_code_mapping() {
    assert_eq!(style_from_code(1), Some(PamMessageStyle::PromptEchoOff));
    assert_eq!(style_from_code(2), Some(PamMessageStyle::PromptEchoOn));
    assert_eq!(style_from_code(3), Some(PamMessageStyle::ErrorMsg));
    assert_eq!(style_from_code(4), Some(PamMessageStyle::TextInfo));
    assert_eq!(style_from_code(0), None);
    assert_eq!(style_from_code(99), None);
    assert_eq!(style_from_code(PamMessageStyle::TextInfo.code()), Some(PamMessageStyle::TextInfo));
}

#[test]
fn return_code_values() {
    assert_eq!(PamReturnCode::Success.code(), PAM_SUCCESS);
    assert_eq!(PamReturnCode::BufErr.code(), PAM_BUF_ERR);
    assert_eq!(PamReturnCode::ConvErr.code(), PAM_CONV_ERR);
    assert_eq!(PamReturnCode::Success.code(), 0);
    assert_eq!(PamReturnCode::BufErr.code(), 5);
    assert_eq!(PamReturnCode::ConvErr.code(), 19);
}

#[test]
fn repeated_rounds_behave_identically() {
    let mut h = handler(b"alice", b"secret");
    let msgs = vec![
        msg(PamMessageStyle::PromptEchoOn.code(), b"login?"),
        msg(PamMessageStyle::TextInfo.code(), b"checking"),
        msg(PamMessageStyle::PromptEchoOff.code(), b"password?"),
    ];
    let (status_a, resps_a) = converse(&mut h, &msgs);
    let (status_b, resps_b) = converse(&mut h, &msgs);
    assert_eq!(status_a, PamReturnCode::Success);
    assert_eq!(status_b, PamReturnCode::Success);
    let a = slot_texts(&resps_a.expect("first round publishes"));
    let b = slot_texts(&resps_b.expect("second round publishes"));
    assert_eq!(a, b);
    assert_eq!(
        a,
        vec![Some(b"alice".to_vec()), None, Some(b"secret".to_vec())]
    );
}

#[test]
fn set_credentials_overwrites() {
    let mut h = PasswordConv::new();
    h.set_credentials(b"first".to_vec(), b"one".to_vec());
    h.set_credentials(b"second".to_vec(), b"two".to_vec());
    let msgs = vec![
        msg(PamMessageStyle::PromptEchoOn.code(), b"login?"),
        msg(PamMessageStyle::PromptEchoOff.code(), b"password?"),
    ];
    let (status, resps) = converse(&mut h, &msgs);
    assert_eq!(status, PamReturnCode::Success);
    assert_eq!(
        slot_texts(&resps.expect("publishes")),
        vec![Some(b"second".to_vec()), Some(b"two".to_vec())]
    );
}

#[test]
fn new_handler_answers_with_empty_credentials() {
    let mut h = PasswordConv::new();
    let msgs = vec![msg(PamMessageStyle::PromptEchoOn.code(), b"login?")];
    let (status, resps) = converse(&mut h, &msgs);
    assert_eq!(status, PamReturnCode::Success);
    assert_eq!(slot_texts(&resps.expect("publishes")), vec![Some(Vec::new())]);
}

#[test]
fn byte_helpers() {
    assert!(contains_nul(&b"a\0b".to_vec()));
    assert!(!contains_nul(&b"ab".to_vec()));
    assert!(!contains_nul(&Vec::new()));
    let v = b"alice".to_vec();
    assert_eq!(copy_bytes(&v), v);
}
