use pages::page::{next_build_action, BuildAction, Pages, Rect, OUTLINE_MARGIN};
use pages::style::{PageStyle, STYLE_COUNT};
use pages::tiler::{blit_plan, surface_size, Blit, MAX_SQUARES, SQUARE_SIZE};

fn blit(x: i32, y: i32, w: u32, h: u32) -> Blit {
    Blit { x, y, w, h }
}

#[test]
fn surface_size_is_pitch_times_squares_minus_one() {
    for &(cols, rows) in &[(5u32, 5u32), (6, 9), (10, 10), (13, 5), (30, 42), (101, 77)] {
        let (w, h) = surface_size((cols, rows));
        assert_eq!(w, SQUARE_SIZE * cols + cols - 1);
        assert_eq!(h, SQUARE_SIZE * rows + rows - 1);
    }
}

#[test]
fn surface_size_of_ten_by_ten() {
    assert_eq!(surface_size((10, 10)), (309, 309));
}

#[test]
fn surface_size_at_largest_grid() {
    assert_eq!(surface_size((MAX_SQUARES, 1)), (2_147_483_645, 30));
}

#[test]
fn ten_by_ten_takes_four_whole_blocks() {
    let plan = blit_plan((10, 10));
    assert_eq!(
        plan,
        vec![
            blit(0, 0, 155, 155),
            blit(155, 0, 155, 155),
            blit(0, 155, 155, 155),
            blit(155, 155, 155, 155),
        ]
    );
}

#[test]
fn seven_by_seven_has_partial_blocks_of_sixty_one() {
    let plan = blit_plan((7, 7));
    assert_eq!(
        plan,
        vec![
            blit(0, 0, 155, 155),
            blit(155, 0, 61, 155),
            blit(0, 155, 155, 61),
            blit(155, 155, 61, 61),
        ]
    );
}

#[test]
fn small_grid_is_one_partial_block() {
    assert_eq!(blit_plan((3, 2)), vec![blit(0, 0, 92, 61)]);
    assert_eq!(blit_plan((1, 1)), vec![blit(0, 0, 30, 30)]);
}

#[test]
fn exact_multiple_of_five_has_only_whole_blocks() {
    let plan = blit_plan((15, 5));
    assert_eq!(plan, vec![blit(0, 0, 155, 155), blit(155, 0, 155, 155), blit(310, 0, 155, 155)]);
}

#[test]
fn wide_page_rows_are_laid_out_left_to_right() {
    let plan = blit_plan((12, 6));
    assert_eq!(plan.len(), 6);
    assert_eq!(plan[2], blit(310, 0, 61, 155));
    assert_eq!(plan[3], blit(0, 155, 155, 30));
    assert_eq!(plan[5], blit(310, 155, 61, 30));
}

#[test]
fn page_dimensions_of_thirty_by_forty_two() {
    let page = Pages::new((30, 42), 1920);
    assert_eq!(page.width(), 929);
    assert_eq!(page.height(), 1301);
}

#[test]
fn new_page_is_centred_at_the_top_in_white_squared() {
    let page = Pages::new((30, 42), 1920);
    let frame = page.draw();
    assert_eq!(frame.content, Rect { x: 960 - 464, y: 0, w: 929, h: 1301 });
    assert_eq!(page.style(), PageStyle::WhiteSquared);
    assert_eq!(frame.style_index, 0);
}

#[test]
fn page_wider_than_canvas_starts_left_of_it() {
    let page = Pages::new((30, 42), 100);
    assert_eq!(page.draw().content.x, 50 - 464);
}

#[test]
fn page_identity_is_a_fresh_v4_uuid() {
    let a = Pages::new((5, 5), 800);
    let b = Pages::new((5, 5), 800);
    assert_eq!(a.id.get_version_num(), 4);
    assert_ne!(a.id, b.id);
    assert_eq!(a.id(), a.id);
    assert_eq!(a.draw().texture, a.id());
}

#[test]
fn largest_page_is_centred_and_outlined() {
    let f = Pages::new((MAX_SQUARES, 1), 0).draw();
    assert_eq!(f.content, Rect { x: -1_073_741_822, y: 0, w: 2_147_483_645, h: 30 });
    assert_eq!(f.outline, Rect { x: -1_073_741_825, y: -3, w: 2_147_483_651, h: 36 });
}

#[test]
fn set_style_selects_its_texture_slot_until_changed() {
    let mut page = Pages::new((10, 10), 800);
    page.set_style(PageStyle::BeigeSquared);
    assert_eq!(page.style(), PageStyle::BeigeSquared);
    let first = page.draw();
    let second = page.draw();
    assert_eq!(first.style_index, 2);
    assert_eq!(second.style_index, 2);
    assert_eq!(first.content, second.content);
    page.set_style(PageStyle::BeigePlain);
    assert_eq!(page.draw().style_index, 3);
    page.set_style(PageStyle::WhitePlain);
    assert_eq!(page.draw().style_index, 1);
}

#[test]
fn outline_is_content_grown_by_three() {
    for &(cols, rows, canvas) in &[(30u32, 42u32, 1920u32), (1, 1, 0), (7, 12, 640)] {
        let page = Pages::new((cols, rows), canvas);
        let f = page.draw();
        assert_eq!(OUTLINE_MARGIN, 3);
        assert_eq!(
            f.outline,
            Rect { x: f.content.x - 3, y: f.content.y - 3, w: f.content.w + 6, h: f.content.h + 6 }
        );
    }
}

#[test]
fn outline_of_thirty_by_forty_two() {
    let f = Pages::new((30, 42), 1920).draw();
    assert_eq!(f.outline, Rect { x: 493, y: -3, w: 935, h: 1307 });
}

#[test]
fn styles_map_to_slots_and_paths() {
    let all = [
        (PageStyle::WhiteSquared, "assets/white_squared.png"),
        (PageStyle::WhitePlain, "assets/white_plain.png"),
        (PageStyle::BeigeSquared, "assets/beige_squared.png"),
        (PageStyle::BeigePlain, "assets/beige_plain.png"),
    ];
    assert_eq!(STYLE_COUNT, 4);
    for (i, (style, path)) in all.iter().enumerate() {
        assert_eq!(style.index(), i);
        assert_eq!(PageStyle::at(i), *style);
        assert_eq!(style.path(), *path);
    }
}

#[test]
fn build_composites_styles_in_slot_order_then_registers() {
    let mut outcomes: Vec<bool> = Vec::new();
    assert_eq!(next_build_action(&outcomes), BuildAction::Composite(PageStyle::WhiteSquared));
    outcomes.push(true);
    assert_eq!(next_build_action(&outcomes), BuildAction::Composite(PageStyle::WhitePlain));
    outcomes.push(true);
    assert_eq!(next_build_action(&outcomes), BuildAction::Composite(PageStyle::BeigeSquared));
    outcomes.push(true);
    assert_eq!(next_build_action(&outcomes), BuildAction::Composite(PageStyle::BeigePlain));
    outcomes.push(true);
    assert_eq!(next_build_action(&outcomes), BuildAction::Register);
}

#[test]
fn unreadable_asset_of_any_style_aborts_without_registering() {
    for failed in 0..4usize {
        let mut outcomes = vec![true; failed];
        outcomes.push(false);
        assert_eq!(next_build_action(&outcomes), BuildAction::Abort);
        while outcomes.len() < 4 {
            outcomes.push(true);
        }
        assert_eq!(next_build_action(&outcomes), BuildAction::Abort);
    }
}
