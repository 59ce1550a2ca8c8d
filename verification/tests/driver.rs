use std::marker::PhantomData;

use blueprint::run;
use blueprint::Blueprint;
use blueprint::Event;
use blueprint::Handle;
use blueprint::Reply;
use blueprint::Step;

#[allow(non_camel_case_types)]
struct NEED_DATA;
struct FINISHED;

#[derive(Default)]
struct MyThing<T> {
    data: Option<u8>,
    _ph: PhantomData<T>,
}

impl MyThing<()> {
    fn new() -> MyThing<NEED_DATA> {
        MyThing { data: None, _ph: PhantomData }
    }
}

impl MyThing<NEED_DATA> {
    fn gief_input(&mut self, input: u8) {
        self.data = Some(input);
    }

    fn proceed(self) -> Option<MyThing<FINISHED>> {
        let data = self.data?;
        Some(MyThing { data: Some(data), _ph: PhantomData })
    }
}

impl MyThing<FINISHED> {
    pub fn get_data(&self) -> u8 {
        // unwrap is ok because state guarantees it.
        self.data.unwrap()
    }
}

enum TestBlauprint {
    Start,
    Waiting,
    Emitted,
}

impl Blueprint<u8, String> for TestBlauprint {
    type Return = &'static str;

    fn step(&mut self, handle: &mut Handle<u8, String>) -> Step<&'static str> {
        match self {
            TestBlauprint::Start => {
                handle.want_input();
                *self = TestBlauprint::Waiting;
                Step::Pending
            }
            TestBlauprint::Waiting => {
                // This is a Thing<NEED_DATA>
                let mut thing = MyThing::new();

                let input = handle.take_input().expect("input to have been supplied");

                // gief_input() only implemented for MyThing<NEED_DATA>
                thing.gief_input(input);

                // Rebind to Thing<FINISHED>
                let thing = thing.proceed().expect("thing to be able to proceed");

                // get_data() only implemented for MyThing<FINISHED>
                let output = thing.get_data().to_string();

                handle.provide_output(output);
                *self = TestBlauprint::Emitted;
                Step::Pending
            }
            TestBlauprint::Emitted => Step::Ready("alles gut"),
        }
    }
}

#[test]
fn test() {
    let mut events = run(TestBlauprint::Start);

    let mut reply: Option<Reply<u8>> = None;
    while let Some(io) = events.next(reply.take()) {
        match io {
            Event::Input(res) => {
                println!("provide input");
                reply = Some(res.provide(42));
            }
            Event::Output(out) => {
                println!("output: {}", out);
                assert_eq!(out, "42");
            }
            Event::Return(end) => {
                println!("end");
                assert_eq!(end, "alles gut");
            }
        }
    }
}
