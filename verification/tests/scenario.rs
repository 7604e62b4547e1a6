use broadcast_server::bus::publish;
use broadcast_server::listener::{Listener, ListenerAction, ListenerEvent};
use broadcast_server::reader::{ReadEvent, ReaderAction};
use broadcast_server::supervisor::Connection;
use broadcast_server::writer::{WriterAction, WriterEvent};
use tokio::sync::broadcast::error::TryRecvError;

/// A client as the server sees it, with what the server has sent it so far
/// and has not yet been read by the test.
struct Client {
    connection: Connection,
    inbox: Vec<String>,
}

struct Server {
    listener: Listener,
    log: Vec<String>,
}

impl Server {
    fn start(requested: &str, bound: Result<u16, u16>) -> Server {
        let mut server = Server { listener: Listener::new(requested.to_string()), log: Vec::new() };
        let mut action = match bound {
            Ok(port) => server.listener.step(ListenerEvent::Bound { port }),
            Err(_) => server.listener.step(ListenerEvent::BindFailed),
        };
        if let ListenerAction::Bind { address } = &action {
            assert_eq!(address, "127.0.0.1:0");
            action = server.listener.step(ListenerEvent::Bound { port: bound.unwrap_err() });
        }
        match action {
            ListenerAction::Serve { warning, listening } => {
                if let Some(warning) = warning {
                    server.log.push(format!("{}\n", warning.text));
                }
                server.log.push(format!("{}\n", listening.text));
            }
            _ => panic!("the listener does not serve"),
        }
        server
    }

    fn connect(&mut self, port: u16) -> Client {
        match self.listener.step(ListenerEvent::Accepted { ip: "127.0.0.1".to_string(), port }) {
            ListenerAction::Start(connection) => {
                self.log.push(format!("{}\n", connection.log.text));
                let inbox = vec![connection.login.clone()];
                Client { connection, inbox }
            }
            _ => panic!("the listener does not start the connection"),
        }
    }

    fn read(&mut self, client: &mut Client, event: ReadEvent) {
        match client.connection.reader.step(event) {
            ReaderAction::Publish { log, message } => {
                self.log.push(format!("{}\n", log.text));
                publish(&client.connection.publisher, message);
            }
            ReaderAction::Leave { log } => self.log.push(format!("{}\n", log.text)),
            ReaderAction::Stop => {}
        }
    }

    fn take_log(&mut self) -> String {
        self.log.drain(..).collect()
    }
}

impl Client {
    /// Runs the writing side until its subscription has nothing pending.
    fn pump(&mut self) {
        let mut action = WriterAction::Receive;
        loop {
            let event = match action {
                WriterAction::Receive => match self.connection.subscription.try_recv() {
                    Ok(message) => WriterEvent::Delivered(message),
                    Err(TryRecvError::Lagged(missed)) => WriterEvent::Lagged(missed),
                    Err(TryRecvError::Closed) => WriterEvent::BusClosed,
                    Err(TryRecvError::Empty) => break,
                },
                WriterAction::Write(line) => {
                    self.inbox.push(line);
                    WriterEvent::Written
                }
                WriterAction::Stop => break,
            };
            action = self.connection.writer.step(event);
        }
    }

    fn next_line(&mut self) -> String {
        self.pump();
        let line = self.inbox.remove(0);
        line.strip_suffix("\n").unwrap().to_string()
    }

    fn has_nothing_pending(&mut self) -> bool {
        self.pump();
        self.inbox.is_empty()
    }
}

#[test]
fn broadcast_server() {
    let mut server = Server::start("127.0.0.1:8888", Ok(8888));
    assert_eq!("listening on port 8888\n", server.take_log());

    let alice_port: u16 = 50001;
    let bob_port: u16 = 50002;
    let john_port: u16 = 50003;

    let mut alice = server.connect(alice_port);
    assert_eq!(format!("LOGIN:{alice_port}"), alice.next_line());
    assert_eq!(format!("connected 127.0.0.1 {alice_port}\n"), server.take_log());
    let mut bob = server.connect(bob_port);
    assert_eq!(format!("LOGIN:{bob_port}"), bob.next_line());
    assert_eq!(format!("connected 127.0.0.1 {bob_port}\n"), server.take_log());
    let mut john = server.connect(john_port);
    assert_eq!(format!("LOGIN:{john_port}"), john.next_line());
    assert_eq!(format!("connected 127.0.0.1 {john_port}\n"), server.take_log());

    let alice_msg = "REQUEST";
    server.read(&mut alice, ReadEvent::Line(alice_msg.to_string()));
    assert_eq!("ACK:MESSAGE", alice.next_line());
    assert_eq!(format!("MESSAGE:{alice_port} {alice_msg}"), bob.next_line());
    assert_eq!(format!("MESSAGE:{alice_port} {alice_msg}"), john.next_line());
    assert_eq!(format!("message {alice_port} {alice_msg}\n"), server.take_log());

    let bob_msg = "REPLY";
    server.read(&mut bob, ReadEvent::Line(bob_msg.to_string()));
    assert_eq!("ACK:MESSAGE", bob.next_line());
    assert_eq!(format!("MESSAGE:{bob_port} {bob_msg}"), alice.next_line());
    assert_eq!(format!("MESSAGE:{bob_port} {bob_msg}"), john.next_line());
    assert_eq!(format!("message {bob_port} {bob_msg}\n"), server.take_log());

    server.read(&mut alice, ReadEvent::EndOfStream);
    drop(alice);
    assert_eq!(format!("disconnected 127.0.0.1 {alice_port}\n"), server.take_log());
    let bob_msg = "DOUBLE_TEXTING";
    server.read(&mut bob, ReadEvent::Line(bob_msg.to_string()));
    assert_eq!("ACK:MESSAGE", bob.next_line());
    assert_eq!(format!("MESSAGE:{bob_port} {bob_msg}"), john.next_line());
    assert_eq!(format!("message {bob_port} {bob_msg}\n"), server.take_log());
    assert!(bob.has_nothing_pending());
    assert!(john.has_nothing_pending());

    server.read(&mut bob, ReadEvent::EndOfStream);
    drop(bob);
    assert_eq!(format!("disconnected 127.0.0.1 {bob_port}\n"), server.take_log());
    server.read(&mut john, ReadEvent::Reset);
    drop(john);
    assert_eq!(format!("disconnected 127.0.0.1 {john_port}\n"), server.take_log());
}

#[test]
fn fallback_server_relays_as_usual() {
    let mut server = Server::start("127.0.0.1:8888", Err(40123));
    assert_eq!(
        "Not able to use 127.0.0.1:8888, fallback to 127.0.0.1:40123.\nlistening on port 40123\n",
        server.take_log()
    );
    let mut alice = server.connect(50001);
    let mut bob = server.connect(50002);
    assert_eq!("LOGIN:50001", alice.next_line());
    assert_eq!("LOGIN:50002", bob.next_line());
    assert_eq!("connected 127.0.0.1 50001\nconnected 127.0.0.1 50002\n", server.take_log());
    server.read(&mut alice, ReadEvent::Line("REQUEST".to_string()));
    assert_eq!("ACK:MESSAGE", alice.next_line());
    assert_eq!("MESSAGE:50001 REQUEST", bob.next_line());
    assert_eq!("message 50001 REQUEST\n", server.take_log());
}

#[test]
fn own_lines_are_acknowledged_one_for_one() {
    let mut server = Server::start("127.0.0.1:8888", Ok(8888));
    let mut alice = server.connect(50001);
    assert_eq!("LOGIN:50001", alice.next_line());
    for text in ["one", "two", "three"] {
        server.read(&mut alice, ReadEvent::Line(text.to_string()));
        assert_eq!("ACK:MESSAGE", alice.next_line());
        assert!(alice.has_nothing_pending());
    }
}

#[test]
fn lines_reach_the_others_in_the_order_sent() {
    let mut server = Server::start("127.0.0.1:8888", Ok(8888));
    let mut alice = server.connect(50001);
    let mut bob = server.connect(50002);
    assert_eq!("LOGIN:50002", bob.next_line());
    let texts = ["first", "second", "third", "fourth"];
    for text in texts {
        server.read(&mut alice, ReadEvent::Line(text.to_string()));
    }
    for text in texts {
        assert_eq!(format!("MESSAGE:50001 {text}"), bob.next_line());
    }
    assert!(bob.has_nothing_pending());
}

#[test]
fn lines_sent_before_a_connection_do_not_reach_it() {
    let mut server = Server::start("127.0.0.1:8888", Ok(8888));
    let mut alice = server.connect(50001);
    server.read(&mut alice, ReadEvent::Line("early".to_string()));
    let mut bob = server.connect(50002);
    assert_eq!("LOGIN:50002", bob.next_line());
    assert!(bob.has_nothing_pending());
}

#[test]
fn departure_of_one_client_leaves_the_others_served() {
    let mut server = Server::start("127.0.0.1:8888", Ok(8888));
    let mut alice = server.connect(50001);
    let mut bob = server.connect(50002);
    let mut john = server.connect(50003);
    assert_eq!("LOGIN:50002", bob.next_line());
    assert_eq!("LOGIN:50003", john.next_line());
    server.take_log();
    server.read(&mut alice, ReadEvent::Reset);
    server.read(&mut alice, ReadEvent::EndOfStream);
    drop(alice);
    assert_eq!("disconnected 127.0.0.1 50001\n", server.take_log());
    server.read(&mut bob, ReadEvent::Line("anyone?".to_string()));
    assert_eq!("ACK:MESSAGE", bob.next_line());
    assert_eq!("MESSAGE:50002 anyone?", john.next_line());
}
