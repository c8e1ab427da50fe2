use rift::qr::{check_logo_content_type, check_logo_size, check_logo_url};
use rift::links::QrCodeQuery;
use rift::qr::{
    margin_px, parse_corner_dot_type, parse_corner_square_type, parse_dot_type, parse_ec_level,
    parse_hex_color, parse_shape, qr_content_type, QrBaseOptions, QrColor, QrCornerDotType,
    QrCornerSquareType, QrDotType, QrLevel, QrOutputFormat, QrShape, QrStyleOptions,
};

fn query() -> QrCodeQuery {
    QrCodeQuery {
        logo: None,
        size: None,
        level: None,
        fg_color: None,
        bg_color: None,
        hide_logo: false,
        margin: None,
        include_margin: None,
        dot_type: None,
        corner_square_type: None,
        corner_dot_type: None,
        shape: None,
        dot_color: None,
        corner_square_color: None,
        corner_dot_color: None,
    }
}

#[test]
fn qr_levels_either_case() {
    assert_eq!(parse_ec_level("h"), Ok(QrLevel::H));
    assert_eq!(parse_ec_level("Q"), Ok(QrLevel::Q));
    assert_eq!(parse_ec_level("x"), Err("level must be one of L, M, Q, H".to_string()));
}

#[test]
fn qr_shape_names() {
    assert_eq!(parse_dot_type("classyrounded"), Ok(QrDotType::ClassyRounded));
    assert_eq!(parse_dot_type("extra-rounded"), Ok(QrDotType::ExtraRounded));
    assert_eq!(
        parse_dot_type("star"),
        Err("dotType must be one of square, dots, rounded, classy, classy-rounded, extra-rounded".to_string())
    );
    assert_eq!(parse_corner_square_type("dot"), Ok(QrCornerSquareType::Dot));
    assert_eq!(
        parse_corner_square_type("circle"),
        Err("cornerSquareType must be one of square, dot, extra-rounded".to_string())
    );
    assert_eq!(parse_corner_dot_type("square"), Ok(QrCornerDotType::Square));
    assert_eq!(parse_corner_dot_type("x"), Err("cornerDotType must be one of dot, square".to_string()));
    assert_eq!(parse_shape("circle"), Ok(QrShape::Circle));
    assert_eq!(parse_shape("oval"), Err("shape must be one of square, circle".to_string()));
}

#[test]
fn qr_colors() {
    assert_eq!(parse_hex_color(" #f00 ", "fgColor"), Ok(QrColor { r: 255, g: 0, b: 0 }));
    assert_eq!(parse_hex_color("#0d9488", "bgColor"), Ok(QrColor { r: 13, g: 148, b: 136 }));
    assert_eq!(parse_hex_color("red", "dotColor"), Err("dotColor must be #RGB or #RRGGBB".to_string()));
}

#[test]
fn qr_base_defaults() {
    let o = QrBaseOptions::from_query(&query()).unwrap();
    assert_eq!(o.size, 600);
    assert_eq!(o.margin, 2);
    assert_eq!(o.level, QrLevel::L);
    assert_eq!(o.fg, QrColor { r: 0, g: 0, b: 0 });
    assert_eq!(o.bg, QrColor { r: 255, g: 255, b: 255 });
    assert_eq!(o.logo_url, None);
}

#[test]
fn qr_logo_raises_level_unless_hidden() {
    let mut q = query();
    q.logo = Some("https://example.com/logo.png".to_string());
    let o = QrBaseOptions::from_query(&q).unwrap();
    assert_eq!(o.level, QrLevel::H);
    assert_eq!(o.logo_url.as_deref(), Some("https://example.com/logo.png"));
    q.hide_logo = true;
    let o = QrBaseOptions::from_query(&q).unwrap();
    assert_eq!(o.level, QrLevel::L);
    assert_eq!(o.logo_url, None);
}

#[test]
fn qr_base_errors_in_order() {
    let mut q = query();
    q.size = Some(100);
    q.margin = Some(40);
    assert_eq!(QrBaseOptions::from_query(&q).err(), Some("size must be between 128 and 2048".to_string()));
    q.size = Some(2048);
    assert_eq!(QrBaseOptions::from_query(&q).err(), Some("margin must be between 0 and 16".to_string()));
    q.margin = None;
    q.include_margin = Some(false);
    assert_eq!(QrBaseOptions::from_query(&q).unwrap().margin, 0);
    q.fg_color = Some("black".to_string());
    assert_eq!(QrBaseOptions::from_query(&q).err(), Some("fgColor must be #RGB or #RRGGBB".to_string()));
    q.fg_color = None;
    q.bg_color = Some("#12".to_string());
    assert_eq!(QrBaseOptions::from_query(&q).err(), Some("bgColor must be #RGB or #RRGGBB".to_string()));
}

#[test]
fn qr_style_defaults_and_parts() {
    let s = QrStyleOptions::from_query(&query()).unwrap();
    assert_eq!(s.dot_type, QrDotType::Rounded);
    assert_eq!(s.corner_square_type, QrCornerSquareType::ExtraRounded);
    assert_eq!(s.corner_dot_type, QrCornerDotType::Dot);
    assert_eq!(s.shape, QrShape::Square);
    let mut q = query();
    q.corner_dot_color = Some("#00f".to_string());
    let s = QrStyleOptions::from_query(&q).unwrap();
    let fg = QrColor { r: 1, g: 2, b: 3 };
    let (dots, frames, pupils) = s.part_colors(fg);
    assert_eq!(dots, fg);
    assert_eq!(frames, fg);
    assert_eq!(pupils, QrColor { r: 0, g: 0, b: 255 });
    q.dot_type = Some("hex".to_string());
    assert!(QrStyleOptions::from_query(&q).err().unwrap().starts_with("dotType must be"));
}

#[test]
fn qr_margin_and_content_type() {
    assert_eq!(margin_px(2), 20);
    assert_eq!(margin_px(u32::MAX), u32::MAX);
    assert_eq!(qr_content_type(QrOutputFormat::Png), "image/png");
    assert_eq!(qr_content_type(QrOutputFormat::Svg), "image/svg+xml; charset=utf-8");
}

#[test]
fn qr_logo_checks() {
    assert_eq!(check_logo_url("https://cdn.example.com/logo.png"), Ok(()));
    assert!(check_logo_url("ftp://cdn.example.com/logo.png").unwrap_err().starts_with("logo: URL scheme must be http or https"));
    assert_eq!(check_logo_content_type(Some("Image/PNG; charset=binary")), Ok(()));
    assert_eq!(check_logo_content_type(None), Ok(()));
    assert_eq!(check_logo_content_type(Some("image/gif")), Err("logo must be PNG, JPEG, or WebP".to_string()));
    assert_eq!(check_logo_size(524288), Ok(()));
    assert_eq!(check_logo_size(524289), Err("logo must be under 524288 bytes".to_string()));
}
