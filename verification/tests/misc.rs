use async_echo_server::executor::{new_executor_and_spawner, Poll, Turn};
use async_echo_server::notes::{ident_show, memory_reordering, path_show};
use async_echo_server::read_sum::{parse_lines, run, sum_lines, sum_numbers, CliError};
use async_echo_server::server::{
    accept_loop, handle_client, Accepted, ClientAction, ClientEvent, BUFFER_SIZE,
};
use async_echo_server::sys::{OsError, Syscall};
use async_echo_server::tcp_listener::TcpStream;
use async_echo_server::text::str_eq;
use async_echo_server::yielding::{Yield, Yielded};

const STREAM: TcpStream = TcpStream(9);

fn finish(result: Result<(), OsError>) -> ClientAction {
    ClientAction::Finish { close: Syscall::Close { fd: 9 }, result }
}

#[test]
fn a_connection_begins_by_reading_a_buffer_of_1024_bytes() {
    assert_eq!(BUFFER_SIZE, 1024);
    assert_eq!(handle_client(&STREAM, ClientEvent::Connected), ClientAction::Read { len: 1024 });
}

#[test]
fn what_was_read_is_written_back_verbatim() {
    let mut buf = vec![0u8; 1024];
    buf[..5].copy_from_slice(b"hello");
    assert_eq!(
        handle_client(&STREAM, ClientEvent::Read(Ok(5), buf)),
        ClientAction::Write { data: b"hello".to_vec() }
    );
    let full: Vec<u8> = (0..1024).map(|i| (i % 251) as u8).collect();
    assert_eq!(
        handle_client(&STREAM, ClientEvent::Read(Ok(1024), full.clone())),
        ClientAction::Write { data: full }
    );
    assert_eq!(
        handle_client(&STREAM, ClientEvent::Read(Ok(1), vec![7, 8, 9])),
        ClientAction::Write { data: vec![7] }
    );
}

#[test]
fn a_read_of_no_bytes_ends_the_connection_and_closes_the_stream() {
    assert_eq!(handle_client(&STREAM, ClientEvent::Read(Ok(0), vec![1; 1024])), finish(Ok(())));
    assert_eq!(
        handle_client(&TcpStream(4), ClientEvent::Read(Ok(0), vec![])),
        ClientAction::Finish { close: TcpStream(4).close(), result: Ok(()) }
    );
}

#[test]
fn after_a_write_that_took_everything_the_connection_reads_again() {
    let read = ClientAction::Read { len: 1024 };
    assert_eq!(handle_client(&STREAM, ClientEvent::Written(Ok(5), b"hello".to_vec())), read);
    assert_eq!(handle_client(&STREAM, ClientEvent::Written(Ok(0), vec![])), read);
    assert_eq!(handle_client(&STREAM, ClientEvent::Written(Ok(9), b"hello".to_vec())), read);
}

#[test]
fn after_a_short_write_the_rest_is_written() {
    assert_eq!(
        handle_client(&STREAM, ClientEvent::Written(Ok(2), b"hello".to_vec())),
        ClientAction::Write { data: b"llo".to_vec() }
    );
    assert_eq!(
        handle_client(&STREAM, ClientEvent::Written(Ok(4), b"hello".to_vec())),
        ClientAction::Write { data: b"o".to_vec() }
    );
    assert_eq!(
        handle_client(&STREAM, ClientEvent::Written(Ok(0), b"hello".to_vec())),
        ClientAction::Write { data: b"hello".to_vec() }
    );
    let full: Vec<u8> = (0..1024).map(|i| (i % 251) as u8).collect();
    assert_eq!(
        handle_client(&STREAM, ClientEvent::Written(Ok(1000), full.clone())),
        ClientAction::Write { data: full[1000..].to_vec() }
    );
}

#[test]
fn an_error_ends_the_connection_with_that_error() {
    let e = OsError { code: 104 };
    assert_eq!(handle_client(&STREAM, ClientEvent::Read(Err(e), vec![])), finish(Err(e)));
    assert_eq!(handle_client(&STREAM, ClientEvent::Written(Err(e), vec![1])), finish(Err(e)));
}

#[test]
fn every_accepted_connection_is_spawned() {
    assert_eq!(accept_loop(Some(Ok(TcpStream(9)))), Accepted::Spawn(TcpStream(9)));
}

#[test]
fn an_error_of_the_listener_ends_the_server() {
    let e = OsError { code: 24 };
    assert_eq!(accept_loop(Some(Err(e))), Accepted::Stop(Err(e)));
    assert_eq!(accept_loop(None), Accepted::Stop(Ok(())));
}

#[test]
fn the_numbers_of_a_text_are_added_up() {
    assert_eq!(run(Ok("1\n2\n3".to_string())), Ok(6));
    assert_eq!(run(Ok("1\n2\n3\n".to_string())), Ok(6));
    assert_eq!(run(Ok("10\r\n-4\r\n+1\r\n".to_string())), Ok(7));
    assert_eq!(run(Ok(String::new())), Ok(0));
    assert_eq!(run(Ok("2147483647".to_string())), Ok(i32::MAX));
}

#[test]
fn the_first_line_that_is_no_number_ends_the_sum() {
    assert_eq!(run(Ok("1\nx\ny".to_string())), Err(CliError::Parse("x".to_string())));
    assert_eq!(run(Ok("1\n\n2".to_string())), Err(CliError::Parse(String::new())));
    assert_eq!(run(Ok(" 1".to_string())), Err(CliError::Parse(" 1".to_string())));
    assert_eq!(
        run(Ok("1\n2147483648\nx".to_string())),
        Err(CliError::Parse("2147483648".to_string()))
    );
}

#[test]
fn a_file_that_cannot_be_read_is_an_error_with_its_code() {
    assert_eq!(run(Err(Some(2))), Err(CliError::Io(Some(2))));
    assert_eq!(run(Err(None)), Err(CliError::Io(None)));
}

#[test]
fn the_sum_wraps_around_like_the_machine() {
    assert_eq!(run(Ok("2147483647\n1".to_string())), Ok(i32::MIN));
    let lines = vec!["-2147483648".to_string(), "-1".to_string(), "5".to_string()];
    assert_eq!(sum_lines(&lines), Ok(i32::MAX.wrapping_add(5)));
}

#[test]
fn strings_are_equal_if_their_characters_are() {
    assert!(str_eq("", ""));
    assert!(str_eq("dev", "dev"));
    assert!(!str_eq("dev", "Dev"));
    assert!(!str_eq("dev", "devel"));
    assert!(str_eq("gr\u{fc}n", "gr\u{fc}n"));
}

#[test]
fn the_headings_do_nothing() {
    ident_show();
    path_show();
    memory_reordering();
}

#[test]
fn a_yield_is_done_after_one_resume_more_than_it_gives_way() {
    let mut y = Yield { rem: 2 };
    assert_eq!(y.poll(), Yielded { polled: Poll::Pending, wake: true });
    assert_eq!(y.poll(), Yielded { polled: Poll::Pending, wake: true });
    assert_eq!(y.poll(), Yielded { polled: Poll::Ready(()), wake: false });
    assert_eq!(y.poll(), Yielded { polled: Poll::Ready(()), wake: false });
    assert_eq!(y, Yield { rem: 0 });
    for rem in [0usize, 1, 20] {
        let mut y = Yield { rem };
        assert_eq!(y.run(), rem + 1);
        assert_eq!(y.rem, 0);
    }
}

#[test]
fn a_yield_runs_on_the_executor_until_it_is_done() {
    let (mut executor, spawner) = new_executor_and_spawner::<Yield>();
    spawner.spawn(&mut executor, Yield { rem: 20 }).unwrap();
    executor.drop_spawner(spawner);
    let mut resumes = 0;
    loop {
        match executor.run() {
            Turn::Resume { waker, mut future } => {
                resumes += 1;
                let yielded = future.poll();
                if yielded.wake {
                    executor.wake(&waker).unwrap();
                }
                executor.settle(waker.task, future, &yielded.polled);
            }
            Turn::Spurious { .. } => panic!("nothing wakes a yield twice"),
            Turn::Idle => panic!("a yield that is not done has asked for a turn"),
            Turn::Closed => break,
        }
    }
    assert_eq!(resumes, 21);
}

#[test]
fn numbers_are_added_as_the_machine_adds_them() {
    assert_eq!(sum_numbers(&vec![]), 0);
    assert_eq!(sum_numbers(&vec![1, 2, 3]), 6);
    assert_eq!(sum_numbers(&vec![-5, 5, 7]), 7);
    assert_eq!(sum_numbers(&vec![i32::MAX, 1]), i32::MIN);
    assert_eq!(sum_numbers(&vec![i32::MIN, -1, 5]), i32::MAX.wrapping_add(5));
    assert_eq!(sum_numbers(&vec![i32::MAX, i32::MAX, 2]), 0);
}

#[test]
fn lines_become_numbers_up_to_the_first_that_is_none() {
    let lines = |texts: &[&str]| texts.iter().map(|t| t.to_string()).collect::<Vec<String>>();
    assert_eq!(parse_lines(&lines(&["1", "-2", "+3"])), Ok(vec![1, -2, 3]));
    assert_eq!(parse_lines(&lines(&[])), Ok(vec![]));
    assert_eq!(parse_lines(&lines(&["1", "two", "x"])), Err(CliError::Parse("two".to_string())));
    assert_eq!(parse_lines(&lines(&["1", ""])), Err(CliError::Parse(String::new())));
}
