use raptors::context::Context;
use raptors::mailbox;
use raptors::messages::LoadfreeMessage;
use raptors::mailbox_new;
use raptors::mailbox_new::Len;
use raptors::typed_messages::{SystemCommand, TypedMessage};

use fnv::FnvHashMap;
use tokio::sync::mpsc;
use uuid::Uuid;

#[test]
fn mailbox_create_mailbox_test() {
    let mbx = mailbox::Mailbox::new();
    assert_eq!(mbx.mails(), vec![]);
}

#[test]
fn mailbox_new_create_mailbox_test() {
    let (tx, rx) = mpsc::channel::<TypedMessage>(16);
    let uuid = Uuid::new_v4();
    let _ctx = Context::new(uuid, tx);
    let mbx = mailbox_new::Mailbox::new(rx);
    assert_eq!(mbx.mails(), vec![]);
}

#[test]
fn send_among_mailboxes_test() {
    let mut map = FnvHashMap::default();

    let (tx_1, _rx_1) = mpsc::channel::<TypedMessage>(16);
    let (tx_2, rx_2) = mpsc::channel::<TypedMessage>(16);
    let (id_1, id_2) = (Uuid::new_v4(), Uuid::new_v4());

    map.insert(id_1.clone(), tx_1.clone());
    map.insert(id_2.clone(), tx_2.clone());

    let mut ctx_1 = Context::new(id_1, tx_1);
    let mut mbx_2 = mailbox_new::Mailbox::new(rx_2);

    // Actor 1 sends to Actor 2
    // First, query the sender
    let new_tx = map.get(&id_2).unwrap();
    ctx_1.set_context(id_2.clone(), (*new_tx).clone());
    // Second, construct the message
    let msg = TypedMessage::SystemMsg(SystemCommand::CreateActor(4, String::from("raptor")));
    // Third, send the message
    ctx_1.send(msg);
    // Check whether Actor 2 received the message
    assert_eq!(mbx_2.len(), 0);
    let recv = mbx_2.receive();
    assert_eq!(mbx_2.len(), 1);
    assert!(recv.is_ok());
    let res = mbx_2.deal();
    assert!(res.is_ok());
    assert_eq!(res.unwrap(), "Received SystemMsg".to_owned());
}

#[test]
fn mailbox_keeps_fifo_order() {
    let mut mbx = mailbox::Mailbox::new();
    let halt = LoadfreeMessage::SystemMsg(raptors::messages::SystemCommand::HaltAll);
    let spawn = LoadfreeMessage::SystemMsg(raptors::messages::SystemCommand::Spawn(0, 1));
    assert!(mbx.enqueue(halt).is_ok());
    assert!(mbx.enqueue(spawn).is_ok());
    assert_eq!(
        mbx.dequeue(),
        Some(LoadfreeMessage::SystemMsg(
            raptors::messages::SystemCommand::HaltAll
        ))
    );
    assert_eq!(
        mbx.dequeue(),
        Some(LoadfreeMessage::SystemMsg(
            raptors::messages::SystemCommand::Spawn(0, 1)
        ))
    );
    assert_eq!(mbx.dequeue(), None);
}
