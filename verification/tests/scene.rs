use webgl_triangle::triangle_indices;
use webgl_triangle::triangle_scene_calls;
use webgl_triangle::triangle_vertex_bits;
use webgl_triangle::fragment_shader_text;
use webgl_triangle::vertex_shader_text;
use webgl_triangle::HostCall;
use webgl_triangle::JSObject;

#[test]
fn vertex_data_holds_the_triangle_corners() {
    let bits = triangle_vertex_bits();
    let floats: Vec<f32> = bits.iter().map(|b| f32::from_bits(*b)).collect();
    assert_eq!(floats, vec![-0.5f32, 0.5, 0.0, -0.5, -0.5, 0.0, 0.5, -0.5, 0.0]);
}

#[test]
fn index_data_holds_one_face() {
    assert_eq!(triangle_indices(), vec![0u16, 1, 2]);
}

#[test]
fn shader_texts_name_the_attribute() {
    assert!(vertex_shader_text().contains("vertex_position"));
    assert!(fragment_shader_text().contains("gl_FragColor"));
}

#[test]
fn full_scene_issues_every_call_once_in_order() {
    let vertex_buffer = JSObject::from_raw(10);
    let index_buffer = JSObject::from_raw(11);
    let vertex_shader = JSObject::from_raw(20);
    let fragment_shader = JSObject::from_raw(21);
    let program = JSObject::from_raw(30);
    let location: u32 = 2;
    let calls = triangle_scene_calls(
        vertex_buffer,
        index_buffer,
        vertex_shader,
        fragment_shader,
        program,
        location,
    );
    assert_eq!(calls.len(), 26);

    assert!(matches!(calls[0], HostCall::SetupCanvas));
    assert!(matches!(calls[1], HostCall::CreateBuffer));
    assert!(matches!(calls[2], HostCall::BindBuffer { target: 0x8892, object: 10 }));
    match &calls[3] {
        HostCall::BufferDataF32 { target, data, len, usage } => {
            assert_eq!(*target, 0x8892);
            assert_eq!(*len, 9);
            let floats: Vec<f32> = data.iter().map(|b| f32::from_bits(*b)).collect();
            assert_eq!(floats, vec![-0.5f32, 0.5, 0.0, -0.5, -0.5, 0.0, 0.5, -0.5, 0.0]);
            assert_eq!(*usage, 0x88E4);
        }
        _ => panic!("call 3 is not the float upload"),
    }
    assert!(matches!(calls[4], HostCall::CreateBuffer));
    assert!(matches!(calls[5], HostCall::BindBuffer { target: 0x8893, object: 11 }));
    match &calls[6] {
        HostCall::BufferDataU16 { target, data, len, usage } => {
            assert_eq!(*target, 0x8893);
            assert_eq!(*len, 3);
            assert_eq!(*data, vec![0u16, 1, 2]);
            assert_eq!(*usage, 0x88E4);
        }
        _ => panic!("call 6 is not the short upload"),
    }
    assert!(matches!(calls[7], HostCall::CreateShader { shader_type: 0x8B31 }));
    match &calls[8] {
        HostCall::ShaderSource { shader, source, len } => {
            assert_eq!(*shader, 20);
            assert_eq!(*source, vertex_shader_text().as_bytes().to_vec());
            assert_eq!(*len, vertex_shader_text().len());
        }
        _ => panic!("call 8 is not the vertex shader source"),
    }
    assert!(matches!(calls[9], HostCall::CompileShader { shader: 20 }));
    assert!(matches!(calls[10], HostCall::CreateShader { shader_type: 0x8B30 }));
    match &calls[11] {
        HostCall::ShaderSource { shader, source, len } => {
            assert_eq!(*shader, 21);
            assert_eq!(*source, fragment_shader_text().as_bytes().to_vec());
            assert_eq!(*len, fragment_shader_text().len());
        }
        _ => panic!("call 11 is not the fragment shader source"),
    }
    assert!(matches!(calls[12], HostCall::CompileShader { shader: 21 }));
    assert!(matches!(calls[13], HostCall::CreateProgram));
    assert!(matches!(calls[14], HostCall::AttachShader { program: 30, shader: 20 }));
    assert!(matches!(calls[15], HostCall::AttachShader { program: 30, shader: 21 }));
    assert!(matches!(calls[16], HostCall::LinkProgram { program: 30 }));
    assert!(matches!(calls[17], HostCall::UseProgram { program: 30 }));
    match &calls[18] {
        HostCall::GetAttribLocation { program, name, len } => {
            assert_eq!(*program, 30);
            assert_eq!(*name, b"vertex_position".to_vec());
            assert_eq!(*len, 15);
        }
        _ => panic!("call 18 is not the attribute lookup"),
    }
    assert!(matches!(calls[19], HostCall::EnableVertexAttribArray { index: 2 }));
    assert!(matches!(calls[20], HostCall::BindBuffer { target: 0x8892, object: 10 }));
    assert!(matches!(
        calls[21],
        HostCall::VertexAttribPointer {
            index: 2,
            size: 3,
            elem_type: 0x1406,
            normalized: false,
            stride: 0,
            pointer: 0,
        }
    ));
    assert!(matches!(calls[22], HostCall::BindBuffer { target: 0x8893, object: 11 }));
    match &calls[23] {
        HostCall::ClearColor { red_bits, green_bits, blue_bits, alpha_bits } => {
            assert_eq!(f32::from_bits(*red_bits), 0.3765);
            assert_eq!(f32::from_bits(*green_bits), 0.3137);
            assert_eq!(f32::from_bits(*blue_bits), 0.8627);
            assert_eq!(f32::from_bits(*alpha_bits), 1.0);
        }
        _ => panic!("call 23 is not the clear color"),
    }
    assert!(matches!(calls[24], HostCall::Clear { mask: 0x00004000 }));
    assert!(matches!(
        calls[25],
        HostCall::DrawElements { mode: 0x0004, count: 3, elem_type: 0x1403, offset: 0 }
    ));
}
