use agent_browser::answer::answer;
use rmcp::model::ErrorCode;

#[test]
fn a_reply_is_the_only_block_of_a_result() {
    match answer(Ok("clicked e1 on p1\n\n(no visible change)".to_string())) {
        Ok(result) => {
            assert_eq!(result.content.len(), 1);
            assert_eq!(
                result.content[0].as_text().unwrap().text,
                "clicked e1 on p1\n\n(no visible change)"
            );
            assert_eq!(result.is_error, Some(false));
            assert!(result.structured_content.is_none());
        }
        Err(e) => panic!("{}", e.message),
    }
}

#[test]
fn a_refusal_is_an_internal_error() {
    match answer(Err("unknown page 'p9'".to_string())) {
        Ok(_) => panic!("no error"),
        Err(e) => {
            assert_eq!(e.code, ErrorCode::INTERNAL_ERROR);
            assert_eq!(e.code.0, -32603);
            assert_eq!(e.message, "unknown page 'p9'");
            assert!(e.data.is_none());
        }
    }
}
