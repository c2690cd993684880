use async_std::net::IpAddr;
use mail_to_telegram::error::Error;
use mail_to_telegram::handler::{HandlerReply, Message, TelegramMailHandler};
use mail_to_telegram::server::{interpret_action, line_with_crlf, EngineAction};
use mail_to_telegram::telegram::{DeliveryPlan, TelegramBroker};

#[test]
fn message_holds_its_parts() {
    let m = Message::new(
        "from@x".to_string(),
        vec!["to@y".to_string()],
        "body".to_string(),
    );
    assert_eq!(m.sender, "from@x");
    assert_eq!(m.recipients, vec!["to@y".to_string()]);
    assert_eq!(m.text, "body");
    let d = Message::default();
    assert_eq!(d.sender, "");
    assert!(d.recipients.is_empty());
    assert_eq!(d.text, "");
}

#[test]
fn handler_accumulates_chunks() {
    let b = TelegramBroker::new("T".to_string(), 0, None, 0);
    let mut h = TelegramMailHandler::new(b.get_sender());
    assert_eq!(h.helo(), HandlerReply::Accepted);
    h.data_start("a@x", &["1@telegram-bot.com".to_string()]);
    h.data(b"one ");
    h.data(b"two");
    assert_eq!(h.data_end(), HandlerReply::Accepted);
    let m = b.recv_message().expect("assembled envelope");
    assert_eq!(m.text, "one two");
    assert_eq!(m.sender, "a@x");
}

#[test]
fn data_start_resets_buffer() {
    let b = TelegramBroker::new("T".to_string(), 0, None, 0);
    let mut h = TelegramMailHandler::new(b.get_sender());
    h.data_start("a@x", &["1@telegram-bot.com".to_string()]);
    h.data(b"stale");
    // a new DATA phase starts afresh
    h.data_start("b@x", &["2@telegram-bot.com".to_string()]);
    h.data(b"fresh");
    assert_eq!(h.data_end(), HandlerReply::Accepted);
    let m = b.recv_message().expect("assembled envelope");
    assert_eq!(m.text, "fresh");
    assert_eq!(m.sender, "b@x");
    assert_eq!(m.recipients, vec!["2@telegram-bot.com".to_string()]);
}

#[test]
fn actions_drive_the_connection() {
    let (w, close) = interpret_action(EngineAction::Reply(vec![50, 53, 48]));
    assert_eq!(w, Some(vec![50, 53, 48]));
    assert!(!close);
    let (w, close) = interpret_action(EngineAction::Close(vec![50, 50, 49], false));
    assert_eq!(w, Some(vec![50, 50, 49]));
    assert!(close);
    let (w, close) = interpret_action(EngineAction::NoReply);
    assert_eq!(w, None);
    assert!(!close);
    let (w, close) = interpret_action(EngineAction::UpgradeTls);
    assert_eq!(w, None);
    assert!(!close);
}

#[test]
fn lines_get_their_crlf_back() {
    assert_eq!(line_with_crlf("HELO x"), "HELO x\r\n");
    assert_eq!(line_with_crlf(""), "\r\n");
}

#[test]
fn error_messages() {
    assert_eq!(
        Error::SocketAddrParseError.message(),
        "Can't parse host address"
    );
    let io = std::io::Error::new(std::io::ErrorKind::ConnectionReset, "gone");
    assert_eq!(Error::IOError(io).message(), "An IO Error occured");
}

struct EngineHandler {
    inner: TelegramMailHandler,
}

fn to_response(reply: HandlerReply) -> mailin::Response {
    match reply {
        HandlerReply::Accepted => mailin::response::OK,
        HandlerReply::InternalError => mailin::response::INTERNAL_ERROR,
    }
}

impl mailin::Handler for EngineHandler {
    fn helo(&mut self, _ip: IpAddr, _domain: &str) -> mailin::Response {
        to_response(self.inner.helo())
    }

    fn data_start(
        &mut self,
        _domain: &str,
        from: &str,
        _is8bit: bool,
        to: &[String],
    ) -> mailin::Response {
        to_response(self.inner.data_start(from, to))
    }

    fn data(&mut self, buf: &[u8]) -> std::io::Result<()> {
        self.inner.data(buf);
        Ok(())
    }

    fn data_end(&mut self) -> mailin::Response {
        to_response(self.inner.data_end())
    }
}

#[test]
fn smtp_session_end_to_end() {
    let broker = TelegramBroker::new("TOKEN".to_string(), 0, None, 0);
    let handler = EngineHandler { inner: TelegramMailHandler::new(broker.get_sender()) };
    let mut session =
        mailin::SessionBuilder::new("mail_to_telegram").build("127.0.0.1".parse().unwrap(), handler);
    assert_eq!(session.greeting().code, 220);
    let r = session.process(b"HELO client.example\r\n");
    assert_eq!(r.code, 250);
    let r = session.process(b"MAIL FROM:<a@x>\r\n");
    assert_eq!(r.code, 250);
    let r = session.process(b"RCPT TO:<5@telegram-bot.com>\r\n");
    assert_eq!(r.code, 250);
    let r = session.process(b"DATA\r\n");
    assert_eq!(r.code, 354);
    let r = session.process(b"hello world\r\n");
    assert!(matches!(r.action, mailin::Action::NoReply));
    let r = session.process(b".\r\n");
    assert_eq!(r.code, 250);
    let msg = broker.recv_message().expect("the completed mail reaches the relay");
    assert_eq!(msg.sender, "a@x");
    assert_eq!(msg.recipients, vec!["5@telegram-bot.com".to_string()]);
    assert!(msg.text.contains("hello world"));
    let plans = broker.plan_message(&msg);
    assert_eq!(plans.len(), 1);
    match &plans[0] {
        DeliveryPlan::Text { chat_id, payload } => {
            assert_eq!(*chat_id, 5);
            assert!(payload.contains("hello world"));
        },
        _ => panic!("exactly one text send to destination 5"),
    }
}
