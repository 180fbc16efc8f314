use hyoka::icons::{loader, Handle, IconCache, Loader, CAPACITY};
use hyoka::picture::{
    accept_frame, load_png, recolour, svg_source, symbolic_source, try_load_png, Drawing, Frame,
};
use hyoka::theme::{theme, Rgb};

#[test]
fn an_icon_is_looked_for_once() {
    let mut cache = IconCache::new();
    let request = cache.with_size("kitty", 64, false).unwrap();
    assert_eq!(request.key, "kitty");
    assert_eq!(request.size, 64);
    assert!(!request.symbolic);
    assert_eq!(request.theme, "Tela-dracula-dark");
    assert_eq!(cache.load("kitty", Some(Handle::Svg(3))), Some(Handle::Svg(3)));
    assert!(cache.with_size("kitty", 16, true).is_none());
    assert_eq!(cache.load("kitty", None), Some(Handle::Svg(3)));
}

#[test]
fn a_vain_search_is_kept_too() {
    let mut cache = IconCache::new();
    assert_eq!(cache.load("nothing", None), None);
    assert!(cache.with_size("nothing", 64, false).is_none());
    assert_eq!(cache.load("nothing", Some(Handle::Pixmap(1))), None);
}

#[test]
fn the_icon_used_least_recently_leaves() {
    let mut cache = IconCache::new();
    for i in 0..CAPACITY {
        cache.load(&format!("icon {i}"), Some(Handle::Svg(i as u64)));
    }
    assert_eq!(cache.load("icon 0", None), Some(Handle::Svg(0)));
    cache.load("one more", None);
    assert!(cache.with_size("icon 1", 64, false).is_some());
    assert!(cache.with_size("icon 0", 64, false).is_none());
    assert!(cache.with_size("icon 2", 64, false).is_none());
}

#[test]
fn an_icon_stays_through_fifteen_others() {
    let mut cache = IconCache::new();
    for i in 0..CAPACITY {
        cache.load(&format!("old {i}"), None);
    }
    cache.load("kitty", Some(Handle::Svg(3)));
    for _ in 0..3 {
        for i in 1..CAPACITY {
            cache.load(&format!("icon {i}"), None);
        }
    }
    assert!(cache.with_size("kitty", 64, false).is_none());
    assert_eq!(cache.load("kitty", None), Some(Handle::Svg(3)));
    for i in 0..CAPACITY {
        cache.load(&format!("new {i}"), None);
    }
    assert!(cache.with_size("kitty", 64, false).is_some());
}

#[test]
fn asking_moves_nothing() {
    let mut cache = IconCache::new();
    for i in 0..CAPACITY {
        cache.load(&format!("icon {i}"), None);
    }
    assert!(cache.with_size("icon 0", 64, false).is_none());
    cache.load("one more", None);
    assert!(cache.with_size("icon 0", 64, false).is_some());
}

#[test]
fn files_are_read_by_their_extension() {
    assert_eq!(loader(Some(b"svg"), true), Some(Loader::Symbolic));
    assert_eq!(loader(Some(b"svg"), false), Some(Loader::Svg));
    assert_eq!(loader(Some(b"png"), true), Some(Loader::Png));
    assert_eq!(loader(Some(b"png"), false), Some(Loader::Png));
    assert_eq!(loader(Some(b"xpm"), false), None);
    assert_eq!(loader(Some(b"SVG"), false), None);
    assert_eq!(loader(None, false), None);
}

#[test]
fn drawings_take_their_height_from_the_size() {
    let picture = Handle::Svg(1).load_size(175);
    assert_eq!((picture.width, picture.height), (175, Some(175)));
    let picture = Handle::Pixmap(1).load_size(175);
    assert_eq!((picture.width, picture.height), (175, None));
    assert_eq!(Handle::Svg(1).load().width, 240);
}

fn encoded(color: png::ColorType, depth: png::BitDepth, data: &[u8]) -> Vec<u8> {
    let mut out = Vec::new();
    let mut encoder = png::Encoder::new(&mut out, 2, 1);
    encoder.set_color(color);
    encoder.set_depth(depth);
    let mut writer = encoder.write_header().unwrap();
    writer.write_image_data(data).unwrap();
    writer.finish().unwrap();
    out
}

#[test]
fn a_pixmap_has_its_pixels() {
    let pixels = [1, 2, 3, 4, 5, 6, 7, 8];
    let data = encoded(png::ColorType::Rgba, png::BitDepth::Eight, &pixels);
    let pixmap = load_png(&data).unwrap();
    assert_eq!((pixmap.width, pixmap.height), (2, 1));
    assert_eq!(pixmap.rgba, pixels);
}

#[test]
fn other_kinds_of_pixels_are_refused() {
    let data = encoded(png::ColorType::Rgb, png::BitDepth::Eight, &[1, 2, 3, 4, 5, 6]);
    assert!(load_png(&data).is_none());
    let data = encoded(png::ColorType::Rgba, png::BitDepth::Sixteen, &[0; 16]);
    assert!(load_png(&data).is_none());
    let frame = |color_type, bit_depth| Frame { width: 1, height: 1, color_type, bit_depth };
    assert!(accept_frame(Some(frame(6, 8)), vec![1, 2, 3, 4]).is_some());
    assert!(accept_frame(Some(frame(2, 8)), vec![1, 2, 3]).is_none());
    assert!(accept_frame(Some(frame(6, 16)), vec![0; 8]).is_none());
    assert!(accept_frame(None, vec![]).is_none());
}

#[test]
fn damaged_files_are_told() {
    assert!(try_load_png(b"no picture").is_none());
    let mut data = encoded(png::ColorType::Rgba, png::BitDepth::Eight, &[9; 8]);
    assert!(try_load_png(&data).unwrap().is_some());
    let middle = data.len() - 20;
    data[middle] ^= 0xff;
    assert!(try_load_png(&data).unwrap().is_none());
}

const DRAWING: &str = "<svg xmlns='http://www.w3.org/2000/svg' width='16' height='8'><path d='M0 0h4v4z' fill='currentColor'/><rect class='error' width='4' height='4'/></svg>";

fn parsed(drawing: Drawing) -> Option<usvg::Tree> {
    let options = usvg::Options { style_sheet: drawing.style_sheet, ..Default::default() };
    usvg::Tree::from_str(&drawing.text, &options).ok()
}

#[test]
fn a_drawing_is_parsed_as_it_is() {
    let drawing = svg_source(DRAWING.to_string());
    assert_eq!(drawing.text, DRAWING);
    assert_eq!(drawing.style_sheet, None);
    let tree = parsed(drawing).unwrap();
    assert_eq!(tree.size().width(), 16.0);
    assert_eq!(tree.size().height(), 8.0);
    assert!(parsed(svg_source("no drawing".to_string())).is_none());
}

#[test]
fn a_symbolic_drawing_takes_the_colours_of_the_bar() {
    let drawing = symbolic_source(DRAWING, &theme());
    assert_eq!(drawing.text, DRAWING.replace("currentColor", "#cdd6f5"));
    assert_eq!(drawing.style_sheet, Some(theme().css_injection()));
    let text = parsed(drawing).unwrap().to_string(&usvg::WriteOptions::default());
    assert!(text.contains("#cdd6f5"), "{text}");
    assert!(text.contains("#f25b4f"), "{text}");
    let tree = parsed(svg_source(DRAWING.to_string())).unwrap();
    let text = tree.to_string(&usvg::WriteOptions::default());
    assert!(!text.contains("#cdd6f5"), "{text}");
}

#[test]
fn open_colours_are_filled_in() {
    assert_eq!(
        recolour("a currentColor b currentColor", &theme()),
        "a #cdd6f5 b #cdd6f5"
    );
}

#[test]
fn colours_are_written_as_style_sheets_do() {
    assert_eq!(Rgb { r: 0xa4, g: 0x06, b: 0xff }.css(), "#a406ff");
    assert_eq!(
        theme().css_injection(),
        "* { fill:#cdd6f5 }.foreground { fill:#cdd6f5 }.success { fill:#92b673 }.warning { fill:#e09733 }.error { fill:#f25b4f }.accent { fill:#a476f7 }"
    );
    let color = theme().primary.with_alpha(55);
    assert_eq!((color.rgb, color.alpha), (Rgb { r: 0xa4, g: 0x76, b: 0xf7 }, 55));
    assert_eq!(theme().background.alpha, 38);
    assert_eq!(theme().background.rgb, Rgb { r: 30, g: 28, b: 34 });
}
