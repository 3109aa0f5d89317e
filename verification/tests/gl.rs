use shogo::draw::Foop;
use shogo::layout::{
    initial_texture_pixel, matrix_column_layout, texture_dims, texture_sampling_params, vao_plan,
    AttribKind, TexParamName, TexParamValue, MAT4_STRIDE_BYTES,
};
use shogo::shader::{
    compile_outcome, instanced_draw, link_outcome, point_draw_count, resolve_circle_locations,
    resolve_program_locations,
};
use shogo::shapes::{rect_triangles, Rect};

#[test]
fn compile_status_decides_the_result() {
    assert_eq!(compile_outcome(true, None), Ok(()));
    assert_eq!(compile_outcome(true, Some("noise".to_owned())), Ok(()));
    assert_eq!(
        compile_outcome(false, Some("boom".to_owned())),
        Err("boom".to_owned())
    );
    assert_eq!(
        compile_outcome(false, None),
        Err("Unknown error creating shader".to_owned())
    );
}

#[test]
fn link_status_decides_the_result() {
    assert_eq!(link_outcome(true, None), Ok(()));
    assert_eq!(
        link_outcome(false, Some("boom".to_owned())),
        Err("boom".to_owned())
    );
    assert_eq!(
        link_outcome(false, None),
        Err("Unknown error creating program object".to_owned())
    );
}

#[test]
fn circle_locations_resolve_when_all_found() {
    let r = resolve_circle_locations(Some(10), Some(11), Some(12), Some(13), 2);
    let locs = r.unwrap();
    assert_eq!(locs.mmatrix, 10);
    assert_eq!(locs.point_size, 11);
    assert_eq!(locs.offset, 12);
    assert_eq!(locs.bg, 13);
    assert_eq!(locs.position, 2);
}

#[test]
fn circle_locations_report_what_is_missing() {
    let r = resolve_circle_locations::<i32>(Some(10), Some(11), Some(12), None, 2);
    assert_eq!(r.unwrap_err(), "uniform err");
    let r = resolve_circle_locations(Some(10), Some(11), Some(12), Some(13), -1);
    assert_eq!(r.unwrap_err(), "attribute err");
}

#[test]
fn program_locations_resolve_and_report() {
    let ok = resolve_program_locations(Some(1), Some(2), Some(3), 4, 5, 6, 7).unwrap();
    assert_eq!(ok.grayscale, 1);
    assert_eq!(ok.text, 2);
    assert_eq!(ok.point_size, 3);
    assert_eq!(ok.mmatrix, 4);
    assert_eq!(ok.position, 5);
    assert_eq!(ok.normal, 6);
    assert_eq!(ok.texcoord, 7);
    let missing = resolve_program_locations::<i32>(Some(1), None, Some(3), 4, 5, 6, 7);
    assert_eq!(missing.unwrap_err(), "uniform err");
    let bad = resolve_program_locations(Some(1), Some(2), Some(3), -1, 5, 6, 7);
    assert_eq!(bad.unwrap_err(), "attribute err");
}

#[test]
fn empty_point_buffers_are_not_drawn() {
    assert_eq!(point_draw_count(0), None);
    assert_eq!(point_draw_count(5), Some(5));
}

#[test]
fn instanced_draw_flags_and_counts() {
    let lit = instanced_draw(false, false, true, 6, 2);
    assert_eq!(lit.grayscale_flag, 0);
    assert_eq!(lit.text_flag, 0);
    assert_eq!(lit.index_count, 6);
    assert_eq!(lit.instance_count, 2);
    let text = instanced_draw(true, true, true, 6, 2);
    assert_eq!(text.grayscale_flag, 1);
    assert_eq!(text.text_flag, 1);
    let unlit = instanced_draw(false, false, false, 6, 2);
    assert_eq!(unlit.text_flag, 2);
}

#[test]
fn attrib_kinds_know_their_sizes() {
    assert_eq!(AttribKind::TexCoord2.components(), 2);
    assert_eq!(AttribKind::Position3.components(), 3);
    assert_eq!(AttribKind::Normal3.components(), 3);
    assert_eq!(AttribKind::Matrix4.components(), 16);
    assert_eq!(AttribKind::Index16.components(), 1);
    assert_eq!(AttribKind::TexCoord2.byte_len(10), 80);
    assert_eq!(AttribKind::Position3.byte_len(10), 120);
    assert_eq!(AttribKind::Matrix4.byte_len(3), 192);
    assert_eq!(AttribKind::Index16.byte_len(7), 14);
}

#[test]
fn matrix_columns_step_through_the_slots() {
    let cols = matrix_column_layout(4);
    assert_eq!(cols.len(), 4);
    for (i, c) in cols.iter().enumerate() {
        assert_eq!(c.location, 4 + i as u32);
        assert_eq!(c.byte_offset, 16 * i as i32);
    }
    assert_eq!(MAT4_STRIDE_BYTES, 64);
}

#[test]
fn vao_plan_lays_out_all_four_buffers() {
    let p = vao_plan(7, 5, 6, 1, 4, 4, 4, 6);
    assert_eq!(p.enabled_attribs, vec![7, 5, 6, 1, 2, 3, 4]);
    assert_eq!(p.tex_coord_bytes, 32);
    assert_eq!(p.position_bytes, 48);
    assert_eq!(p.normal_bytes, 48);
    assert_eq!(p.index_bytes, 12);
    assert_eq!(p.num_index, 6);
    assert_eq!(p.num_vertex, 4);
}

#[test]
fn texture_sampling_is_linear_and_clamped() {
    let ps = texture_sampling_params();
    assert_eq!(ps.len(), 4);
    assert_eq!(ps[0].name, TexParamName::MinFilter);
    assert_eq!(ps[0].value, TexParamValue::Linear);
    assert_eq!(ps[1].name, TexParamName::MagFilter);
    assert_eq!(ps[1].value, TexParamValue::Linear);
    assert_eq!(ps[2].name, TexParamName::WrapS);
    assert_eq!(ps[2].value, TexParamValue::ClampToEdge);
    assert_eq!(ps[3].name, TexParamName::WrapT);
    assert_eq!(ps[3].value, TexParamValue::ClampToEdge);
}

#[test]
fn texture_starts_as_one_blue_pixel() {
    assert_eq!(initial_texture_pixel(), vec![0, 0, 255, 255]);
    assert_eq!(texture_dims(800, 600), (800, 600));
}

#[test]
fn rect_becomes_two_triangles() {
    let mut buffer: Vec<[i64; 2]> = Vec::new();
    rect_triangles(&mut buffer, Rect { x: 40, y: 40, w: 720, h: 520 });
    assert_eq!(
        buffer,
        vec![
            [40, 40],
            [760, 40],
            [40, 560],
            [760, 40],
            [760, 560],
            [40, 560],
        ]
    );
}

#[test]
fn rect_appends_after_existing_vertices() {
    let mut buffer: Vec<[i64; 2]> = vec![[1, 2]];
    rect_triangles(&mut buffer, Rect { x: 0, y: 0, w: 1, h: 1 });
    assert_eq!(buffer.len(), 7);
    assert_eq!(buffer[0], [1, 2]);
    assert_eq!(buffer[1], [0, 0]);
}

#[test]
fn foop_passes_arguments_through() {
    let mut f = Foop::new(|x: i32| x * 2);
    assert_eq!(f.draw(21), 42);
}
