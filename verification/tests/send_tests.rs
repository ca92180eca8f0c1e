use botsend::reply::{decode_reply, message_id_or_zero};
use botsend::send::sending;

const TOKEN: &str = "123456:TESTTOKEN";

#[test]
fn send_message_returns_reported_id() {
    let a = sending::EnviarMensagem(String::from("ola"), 5);
    assert_eq!(a.send(Some("{\"result\":{\"message_id\": 42}}")), Some(42));
}

#[test]
fn every_operation_returns_reported_id() {
    let body = "{\"result\":{\"message_id\": 42}}";
    let ops = vec![
        sending::EnviarMensagem(String::from("ola"), 5),
        sending::APagaMensagem(String::from("5"), 7),
        sending::RePlyTOMensagem(String::from("5"), String::from("ola"), 7),
        sending::EditarMensagem(String::from("5"), 7, String::from("novo")),
        sending::EnviarFoto(String::from("5"), vec![1, 2], String::from("a.png")),
        sending::EnviarFotoCaption(String::from("5"), vec![1, 2], String::from("a.png"), String::from("legenda")),
    ];
    for op in ops {
        assert_eq!(op.send(Some(body)), Some(42));
    }
}

#[test]
fn non_json_body_gives_none() {
    let ops = vec![
        sending::EnviarMensagem(String::from("ola"), 5),
        sending::APagaMensagem(String::from("5"), 7),
        sending::EnviarFoto(String::from("5"), vec![1, 2], String::from("a.png")),
    ];
    for op in ops {
        assert_eq!(op.send(Some("Error ao fazer parse")), None);
        assert_eq!(op.send(Some("{not json")), None);
        assert_eq!(op.send(Some("")), None);
    }
}

#[test]
fn no_reply_gives_none() {
    let a = sending::EnviarMensagem(String::from("ola"), 5);
    assert_eq!(a.send(None), None);
}

#[test]
fn missing_message_id_defaults_to_zero() {
    let a = sending::EditarMensagem(String::from("123"), 7, String::from("hi"));
    assert_eq!(a.send(Some("{\"result\":{}}")), Some(0));
    assert_eq!(a.send(Some("{}")), Some(0));
    assert_eq!(a.send(Some("null")), Some(0));
    assert_eq!(a.send(Some("{\"result\":{\"message_id\":\"42\"}}")), Some(0));
    assert_eq!(a.send(Some("{\"result\":{\"message_id\":1.5}}")), Some(0));
}

#[test]
fn edit_message_url() {
    let a = sending::EditarMensagem(String::from("123"), 7, String::from("hi"));
    let req = a.request(TOKEN);
    assert_eq!(
        req.url,
        format!(
            "https://api.telegram.org/bot{}/editMessageText?chat_id=123&message_id=7&parse_mode=Markdown&text=hi",
            TOKEN
        )
    );
    assert!(req.upload.is_none());
}

#[test]
fn send_message_url() {
    let a = sending::EnviarMensagem(String::from("ola mundo"), 5);
    let req = a.request("T");
    assert_eq!(
        req.url,
        "https://api.telegram.org/botT/sendMessage?chat_id=5&parse_mode=Markdown&text=ola mundo"
    );
    assert!(req.upload.is_none());
}

#[test]
fn reply_message_url() {
    let a = sending::RePlyTOMensagem(String::from("55"), String::from("oi"), 99);
    let req = a.request("T");
    assert_eq!(
        req.url,
        "https://api.telegram.org/botT/sendMessage?chat_id=55&parse_mode=Markdown&text=oi&reply_to_message_id=99"
    );
    assert!(req.upload.is_none());
}

#[test]
fn delete_message_url() {
    let a = sending::APagaMensagem(String::from("123"), 7);
    let req = a.request("T");
    assert_eq!(
        req.url,
        "https://api.telegram.org/botT/deleteMessage?chat_id=123&message_id=7"
    );
    assert!(req.upload.is_none());
}

#[test]
fn delete_url_never_names_parse_mode() {
    let a = sending::APagaMensagem(String::from("-100123456"), 987654321);
    let req = a.request(TOKEN);
    assert!(!req.url.contains("parse_mode"));
}

#[test]
fn photo_payload_stays_out_of_url() {
    let bytes = vec![0xffu8, 0xd8, 0xff, 0xe0];
    let a = sending::EnviarFoto(String::from("5"), bytes.clone(), String::from("foto.jpg"));
    let req = a.request("T");
    assert_eq!(req.url, "https://api.telegram.org/botT/sendPhoto?chat_id=5");
    assert!(!req.url.contains("foto.jpg"));
    assert!(!req.url.contains("photo"));
    let up = req.upload.expect("photo request carries a payload");
    assert_eq!(up.photo, bytes);
    assert_eq!(up.filename, "foto.jpg");
}

#[test]
fn photo_caption_url_and_payload() {
    let bytes = vec![1u8, 2, 3];
    let a = sending::EnviarFotoCaption(
        String::from("5"),
        bytes.clone(),
        String::from("foto.jpg"),
        String::from("legenda"),
    );
    let req = a.request("T");
    assert_eq!(
        req.url,
        "https://api.telegram.org/botT/sendPhoto?chat_id=5&parse_mode=Markdown&caption=legenda"
    );
    assert!(!req.url.contains("foto.jpg"));
    let up = req.upload.expect("photo request carries a payload");
    assert_eq!(up.photo, bytes);
    assert_eq!(up.filename, "foto.jpg");
}

#[test]
fn negative_and_extreme_identifiers_in_urls() {
    let a = sending::EnviarMensagem(String::from("x"), -12);
    assert!(a.request("T").url.contains("chat_id=-12&"));
    let b = sending::APagaMensagem(String::from("c"), i64::MAX);
    assert!(b.request("T").url.ends_with("&message_id=9223372036854775807"));
    let c = sending::APagaMensagem(String::from("c"), i64::MIN);
    assert!(c.request("T").url.ends_with("&message_id=-9223372036854775808"));
    let d = sending::APagaMensagem(String::from("c"), 0);
    assert!(d.request("T").url.ends_with("&message_id=0"));
}

#[test]
fn independent_sends_share_nothing() {
    let a = sending::EnviarMensagem(String::from("a"), 1);
    let b = sending::APagaMensagem(String::from("2"), 3);
    let ra = a.send(Some("{\"result\":{\"message_id\": 7}}"));
    let rb = b.send(Some("{\"result\":{\"message_id\": 8}}"));
    assert_eq!(ra, Some(7));
    assert_eq!(rb, Some(8));
    assert_eq!(a.send(Some("{\"result\":{\"message_id\": 7}}")), Some(7));
}

#[test]
fn decode_reply_matches_send() {
    assert_eq!(decode_reply(None), None);
    assert_eq!(decode_reply(Some("nada")), None);
    assert_eq!(decode_reply(Some("{\"result\":{\"message_id\":-3}}")), Some(-3));
}

#[test]
fn message_id_defaulting() {
    assert_eq!(message_id_or_zero(Some(7)), 7);
    assert_eq!(message_id_or_zero(None), 0);
}
