use render_gl::shader::{
    accepts, cleanup, create_whitespace_buffer_with_len, failure, log_text_of, program_sources, start, step, Command,
    Error, Job, ObjectCall, Program, Reply, ResourceError, Shader, ShaderCollection, ShaderKind,
    ShaderSource, SourceRequest, State, Target, SPACE,
};

struct Driver {
    next_id: u32,
    status: i32,
    log: Vec<u8>,
    calls: Vec<String>,
}

fn answer(driver: &mut Driver, command: &Command) -> Reply {
    driver.calls.push(format!("{:?}", command));
    match command {
        Command::CreateShader { .. } | Command::CreateProgram => Reply::Id(driver.next_id),
        Command::CompileShader { .. } | Command::LinkProgram { .. } => Reply::Value(driver.status),
        Command::AttachShader { .. } | Command::DetachShader { .. } => Reply::Done,
        Command::GetInfoLogLength { .. } => Reply::Value(driver.log.len() as i32),
        Command::GetInfoLog { len, buffer, .. } => {
            assert_eq!(buffer.len(), *len as usize);
            assert!(buffer.iter().all(|b| *b == b' '));
            Reply::Log(driver.log.clone())
        }
        Command::Fail { .. } | Command::Succeed { .. } => unreachable!(),
    }
}

fn run(job: &Job, driver: &mut Driver) -> Command {
    let (mut state, mut command) = start(job);
    let mut steps = 0;
    loop {
        match command {
            Command::Fail { .. } | Command::Succeed { .. } => {
                assert_eq!(state, State::Finished);
                return command;
            }
            _ => {}
        }
        let reply = answer(driver, &command);
        let (s, c) = step(job, state, reply).unwrap();
        state = s;
        command = c;
        steps += 1;
        assert!(steps < 100);
    }
}

fn driver(next_id: u32, status: i32, log: &[u8]) -> Driver {
    Driver { next_id, status, log: log.to_vec(), calls: Vec::new() }
}

#[test]
fn collection_from_all() {
    let c = ShaderCollection::from_all("a.vert", "b.frag");
    assert_eq!(c.vertex_shader(), "a.vert");
    assert_eq!(c.fragment_shader(), "b.frag");
}

#[test]
fn collection_from_simple() {
    let c = ShaderCollection::from_simple("shaders/triangle");
    assert_eq!(c.vertex_shader(), "shaders/triangle.vert");
    assert_eq!(c.fragment_shader(), "shaders/triangle.frag");
}

#[test]
fn collection_from_empty_prefix() {
    let c = ShaderCollection::from_simple("");
    assert_eq!(c.vertex_shader(), ".vert");
    assert_eq!(c.fragment_shader(), ".frag");
}

#[test]
fn program_sources_are_vertex_then_fragment() {
    let c = ShaderCollection::from_simple("tri");
    assert_eq!(
        program_sources(&c),
        vec![
            SourceRequest { name: "tri.vert".to_string(), kind: ShaderKind::Vertex },
            SourceRequest { name: "tri.frag".to_string(), kind: ShaderKind::Fragment },
        ]
    );
}

#[test]
fn resource_error_becomes_resource_load() {
    let inner = ResourceError { message: "file not found".to_string() };
    assert_eq!(Error::from(inner.clone()), Error::ResourceLoad { inner });
}

#[test]
fn whitespace_buffer_has_exactly_len_spaces() {
    assert_eq!(SPACE, b' ');
    assert_eq!(create_whitespace_buffer_with_len(0), Vec::<u8>::new());
    assert_eq!(create_whitespace_buffer_with_len(5), b"     ".to_vec());
    assert_eq!(create_whitespace_buffer_with_len(300).len(), 300);
}

#[test]
fn shader_jobs() {
    assert_eq!(Shader::from_source(ShaderKind::Vertex), Job::Compile { kind: ShaderKind::Vertex });
    assert_eq!(Shader::from_vertex_source(), Job::Compile { kind: ShaderKind::Vertex });
    assert_eq!(Shader::from_fragment_source(), Job::Compile { kind: ShaderKind::Fragment });
}

#[test]
fn compile_starts_by_creating_a_shader() {
    let job = Shader::from_fragment_source();
    assert_eq!(
        start(&job),
        (State::Creating, Command::CreateShader { kind: ShaderKind::Fragment })
    );
}

#[test]
fn compile_success_yields_the_shader() {
    let job = Shader::from_vertex_source();
    let mut d = driver(11, 1, b"");
    assert_eq!(run(&job, &mut d), Command::Succeed { id: 11 });
    assert_eq!(
        d.calls,
        vec!["CreateShader { kind: Vertex }".to_string(), "CompileShader { shader: 11 }".to_string()]
    );
}

#[test]
fn compile_failure_reports_the_log_and_deletes_the_shader() {
    let job = Shader::from_vertex_source();
    let mut d = driver(4, 0, b"0:1(1): error: syntax error");
    let end = run(&job, &mut d);
    assert_eq!(
        end,
        Command::Fail {
            target: Target::Shader,
            id: 4,
            error: Error::CompileError { message: "0:1(1): error: syntax error".to_string() },
        }
    );
    match end {
        Command::Fail { error: Error::CompileError { message }, .. } => assert!(!message.is_empty()),
        _ => unreachable!(),
    }
    assert_eq!(d.calls.len(), 4);
}

#[test]
fn distinct_ids_give_distinct_shaders() {
    let v = run(&Shader::from_vertex_source(), &mut driver(1, 1, b""));
    let f = run(&Shader::from_fragment_source(), &mut driver(2, 1, b""));
    assert_eq!(v, Command::Succeed { id: 1 });
    assert_eq!(f, Command::Succeed { id: 2 });
    assert_ne!(v, f);
}

#[test]
fn log_bytes_that_are_no_text_are_replaced() {
    let job = Shader::from_vertex_source();
    let end = step(&job, State::Reading { id: 9 }, Reply::Log(vec![b'a', 0xff, b'b']));
    assert_eq!(
        end,
        Some((
            State::Finished,
            Command::Fail {
                target: Target::Shader,
                id: 9,
                error: Error::CompileError { message: "a\u{fffd}b".to_string() },
            }
        ))
    );
}

#[test]
fn failure_picks_the_error_by_target() {
    assert_eq!(
        failure(Target::Shader, 1, "x".to_string()),
        Command::Fail {
            target: Target::Shader,
            id: 1,
            error: Error::CompileError { message: "x".to_string() }
        }
    );
    assert_eq!(
        failure(Target::Program, 2, "y".to_string()),
        Command::Fail {
            target: Target::Program,
            id: 2,
            error: Error::LinkError { message: "y".to_string() }
        }
    );
}

#[test]
fn link_attaches_links_and_detaches_in_order() {
    let shaders = vec![Shader::new(3, ShaderKind::Vertex), Shader::new(5, ShaderKind::Fragment)];
    let job = Program::from_shaders(&shaders);
    assert_eq!(job, Job::Link { shaders: vec![3, 5] });
    let mut d = driver(20, 1, b"");
    assert_eq!(run(&job, &mut d), Command::Succeed { id: 20 });
    assert_eq!(
        d.calls,
        vec![
            "CreateProgram".to_string(),
            "AttachShader { program: 20, shader: 3 }".to_string(),
            "AttachShader { program: 20, shader: 5 }".to_string(),
            "LinkProgram { program: 20 }".to_string(),
            "DetachShader { program: 20, shader: 3 }".to_string(),
            "DetachShader { program: 20, shader: 5 }".to_string(),
        ]
    );
    assert_eq!(shaders[0].id(), 3);
    assert_eq!(shaders[1].kind(), ShaderKind::Fragment);
}

#[test]
fn link_failure_reports_the_log_and_deletes_the_program() {
    let job = Job::Link { shaders: vec![3, 5] };
    let mut d = driver(20, 0, b"error: vertex output not matched");
    assert_eq!(
        run(&job, &mut d),
        Command::Fail {
            target: Target::Program,
            id: 20,
            error: Error::LinkError { message: "error: vertex output not matched".to_string() },
        }
    );
    assert_eq!(
        d.calls,
        vec![
            "CreateProgram".to_string(),
            "AttachShader { program: 20, shader: 3 }".to_string(),
            "AttachShader { program: 20, shader: 5 }".to_string(),
            "LinkProgram { program: 20 }".to_string(),
            "GetInfoLogLength { target: Program, id: 20 }".to_string(),
            format!(
                "GetInfoLog {{ target: Program, id: 20, len: 32, buffer: {:?} }}",
                vec![32u8; 32]
            ),
        ]
    );
}

#[test]
fn link_of_no_shaders() {
    let job = Program::from_shaders(&[]);
    let mut d = driver(8, 1, b"");
    assert_eq!(run(&job, &mut d), Command::Succeed { id: 8 });
    assert_eq!(d.calls, vec!["CreateProgram".to_string(), "LinkProgram { program: 8 }".to_string()]);
}

#[test]
fn any_status_but_zero_is_success() {
    let job = Shader::from_vertex_source();
    assert_eq!(
        step(&job, State::Checking { id: 2 }, Reply::Value(-1)),
        Some((State::Finished, Command::Succeed { id: 2 }))
    );
    assert_eq!(
        step(&job, State::Checking { id: 2 }, Reply::Value(0)),
        Some((State::Measuring { id: 2 }, Command::GetInfoLogLength { target: Target::Shader, id: 2 }))
    );
}

#[test]
fn empty_log_gives_an_empty_buffer_and_message() {
    let job = Shader::from_vertex_source();
    assert_eq!(
        step(&job, State::Measuring { id: 2 }, Reply::Value(0)),
        Some((
            State::Reading { id: 2 },
            Command::GetInfoLog { target: Target::Shader, id: 2, len: 0, buffer: Vec::new() }
        ))
    );
    assert_eq!(
        step(&job, State::Reading { id: 2 }, Reply::Log(Vec::new())),
        Some((
            State::Finished,
            Command::Fail {
                target: Target::Shader,
                id: 2,
                error: Error::CompileError { message: String::new() }
            }
        ))
    );
}

#[test]
fn unexpected_replies_are_refused() {
    let compile = Shader::from_vertex_source();
    let link = Job::Link { shaders: vec![1] };
    assert_eq!(step(&compile, State::Creating, Reply::Done), None);
    assert_eq!(step(&compile, State::Checking { id: 1 }, Reply::Id(1)), None);
    assert_eq!(step(&compile, State::Measuring { id: 1 }, Reply::Value(-1)), None);
    assert_eq!(step(&compile, State::Reading { id: 1 }, Reply::Value(3)), None);
    assert_eq!(step(&compile, State::Finished, Reply::Done), None);
    assert_eq!(step(&compile, State::Attaching { id: 1, next: 1 }, Reply::Done), None);
    assert_eq!(step(&link, State::Attaching { id: 1, next: 2 }, Reply::Done), None);
    assert_eq!(step(&link, State::Attaching { id: 1, next: 0 }, Reply::Done), None);
    assert_eq!(step(&link, State::Detaching { id: 1, next: 1 }, Reply::Value(1)), None);
    assert!(!accepts(&compile, State::Finished, &Reply::Done));
    assert!(accepts(&link, State::Attaching { id: 1, next: 1 }, &Reply::Done));
}

#[test]
fn program_calls() {
    let p = Program::new(6);
    assert_eq!(p.id(), 6);
    assert_eq!(p.set_used(), ObjectCall::UseProgram { program: 6 });
    assert_eq!(p.release(), ObjectCall::DeleteProgram { program: 6 });
}

#[test]
fn shader_release_deletes_its_object() {
    let s = Shader::new(6, ShaderKind::Vertex);
    assert_eq!(s.release(), ObjectCall::DeleteShader { shader: 6 });
}

#[test]
fn shader_kinds_have_the_driver_s_enumerants() {
    assert_eq!(ShaderKind::Vertex.gl_enum(), gl::VERTEX_SHADER);
    assert_eq!(ShaderKind::Vertex.gl_enum(), 0x8B31);
    assert_eq!(ShaderKind::Fragment.gl_enum(), gl::FRAGMENT_SHADER);
    assert_eq!(ShaderKind::Fragment.gl_enum(), 0x8B30);
}

#[test]
fn log_text_ends_before_the_terminator() {
    assert_eq!(log_text_of(&b"error\0".to_vec()), b"error".to_vec());
    assert_eq!(log_text_of(&b"ab\0cd\0".to_vec()), b"ab".to_vec());
    assert_eq!(log_text_of(&b"\0abc".to_vec()), Vec::<u8>::new());
    assert_eq!(log_text_of(&b"no terminator".to_vec()), b"no terminator".to_vec());
    assert_eq!(log_text_of(&Vec::new()), Vec::<u8>::new());
}

#[test]
fn message_has_no_terminator() {
    let job = Shader::from_fragment_source();
    let mut d = driver(4, 0, b"0:3(2): error: no such function\0");
    assert_eq!(
        run(&job, &mut d),
        Command::Fail {
            target: Target::Shader,
            id: 4,
            error: Error::CompileError { message: "0:3(2): error: no such function".to_string() },
        }
    );
    let link = Job::Link { shaders: vec![1, 2] };
    assert_eq!(
        step(&link, State::Reading { id: 7 }, Reply::Log(b"link failed\0    ".to_vec())),
        Some((
            State::Finished,
            Command::Fail {
                target: Target::Program,
                id: 7,
                error: Error::LinkError { message: "link failed".to_string() },
            }
        ))
    );
}

#[test]
fn cleanup_deletes_the_object_of_the_job() {
    assert_eq!(cleanup(Target::Shader, 4), ObjectCall::DeleteShader { shader: 4 });
    assert_eq!(cleanup(Target::Program, 9), ObjectCall::DeleteProgram { program: 9 });
}
