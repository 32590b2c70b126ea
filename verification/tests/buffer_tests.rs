use render_gl::buffer::{ArrayBuffer, BufferCall, VertexArray};

#[test]
fn buffer_binds_its_own_id() {
    let b = ArrayBuffer::new(7);
    assert_eq!(b.bind(), BufferCall::BindArrayBuffer { buffer: 7 });
}

#[test]
fn buffer_unbinds_to_zero() {
    let b = ArrayBuffer::new(7);
    assert_eq!(b.unbind(), BufferCall::BindArrayBuffer { buffer: 0 });
}

#[test]
fn upload_covers_every_byte() {
    let b = ArrayBuffer::new(1);
    assert_eq!(b.static_draw_data(3, 16), BufferCall::ArrayBufferStaticData { size: 48 });
    assert_eq!(b.static_draw_data(0, 16), BufferCall::ArrayBufferStaticData { size: 0 });
    assert_eq!(b.static_draw_data(5, 0), BufferCall::ArrayBufferStaticData { size: 0 });
}

#[test]
fn buffer_release_deletes_its_object() {
    let b = ArrayBuffer::new(42);
    assert_eq!(b.release(), BufferCall::DeleteBuffer { buffer: 42 });
}

#[test]
fn vertex_array_binds_its_own_id() {
    let v = VertexArray::new(3);
    assert_eq!(v.bind(), BufferCall::BindVertexArray { array: 3 });
    assert_eq!(v.unbind(), BufferCall::BindVertexArray { array: 0 });
}

#[test]
fn vertex_array_release_deletes_its_object() {
    let v = VertexArray::new(3);
    assert_eq!(v.release(), BufferCall::DeleteVertexArray { array: 3 });
}

#[test]
fn create_then_release_leaves_no_object() {
    let mut live: Vec<u32> = Vec::new();
    let mut round: u32 = 1;
    while round <= 20 {
        live.push(round);
        let b = ArrayBuffer::new(round);
        live.push(round + 1000);
        let v = VertexArray::new(round + 1000);
        match v.release() {
            BufferCall::DeleteVertexArray { array } => live.retain(|id| *id != array),
            other => panic!("unexpected call {:?}", other),
        }
        match b.release() {
            BufferCall::DeleteBuffer { buffer } => live.retain(|id| *id != buffer),
            other => panic!("unexpected call {:?}", other),
        }
        assert!(live.is_empty());
        round += 1;
    }
}
