use solai_coder::style::logo_gradient_ansi_index;
use solai_coder::style::logo_gradient_stop;
use solai_coder::style::solai_logo_color_index;
use solai_coder::style::solai_logo_rgb;
use solai_coder::style::GradientStop;

#[test]
fn solai_logo_style_uses_logo_truecolor_sequence() {
    assert_eq!(solai_logo_rgb(0), (0, 128, 255));
    assert_eq!(solai_logo_rgb(1), (112, 64, 255));
    assert_eq!(solai_logo_rgb(4), (255, 128, 0));
    assert_eq!(solai_logo_rgb(5), (0, 128, 255));
}

#[test]
fn solai_logo_style_falls_back_to_ansi_sequence() {
    assert_eq!(solai_logo_color_index(0), 0);
    assert_eq!(solai_logo_color_index(1), 1);
    assert_eq!(solai_logo_color_index(4), 4);
    assert_eq!(solai_logo_color_index(7), 2);
}

#[test]
fn solai_logo_gradient_style_interpolates_across_width() {
    match logo_gradient_stop(0, 5) {
        GradientStop::Between { segment, offset, span } => {
            assert_eq!((segment, offset, span), (0, 0, 4));
            assert_eq!(solai_logo_rgb(segment), (0, 128, 255));
        }
        other => panic!("unexpected stop {other:?}"),
    }
    assert_eq!(logo_gradient_stop(4, 5), GradientStop::Exact(4));
    assert_eq!(solai_logo_rgb(4), (255, 128, 0));
    match logo_gradient_stop(2, 5) {
        GradientStop::Between { segment, offset, span } => {
            assert_eq!((segment, offset, span), (2, 0, 4));
            assert_eq!(solai_logo_rgb(segment), (255, 0, 255));
        }
        other => panic!("unexpected stop {other:?}"),
    }
}

#[test]
fn gradient_edges() {
    assert_eq!(logo_gradient_stop(7, 1), GradientStop::Exact(0));
    assert_eq!(logo_gradient_stop(0, 0), GradientStop::Exact(0));
    assert_eq!(logo_gradient_stop(99, 5), GradientStop::Exact(4));
    assert_eq!(
        logo_gradient_stop(1, 4),
        GradientStop::Between { segment: 1, offset: 1, span: 3 }
    );
}

#[test]
fn ansi_gradient_spreads_colours_over_the_width() {
    assert_eq!(logo_gradient_ansi_index(0, 10), 0);
    assert_eq!(logo_gradient_ansi_index(2, 10), 1);
    assert_eq!(logo_gradient_ansi_index(9, 10), 4);
    assert_eq!(logo_gradient_ansi_index(50, 10), 4);
}
