use binocle::view::Binocle;
use binocle::color::{GradientTable, Gradients, PixelStyle};
use binocle::settings::BinocleSettings;

fn sampled(gradient: &colorgrad::Gradient) -> GradientTable {
    let mut colors: Vec<[u8; 3]> = Vec::new();
    for b in 0..=255u8 {
        let color = gradient.at(f64::from(b) / 255.0);
        colors.push([
            (color.r * 255.0) as u8,
            (color.g * 255.0) as u8,
            (color.b * 255.0) as u8,
        ]);
    }
    GradientTable::new(colors).unwrap()
}

fn sampled_gradients() -> Gradients {
    Gradients {
        magma: sampled(&colorgrad::magma()),
        plasma: sampled(&colorgrad::plasma()),
        viridis: sampled(&colorgrad::viridis()),
        rainbow: sampled(&colorgrad::rainbow()),
    }
}

fn truncated(color: colorgrad::Color) -> [u8; 4] {
    [
        (color.r * 255.0) as u8,
        (color.g * 255.0) as u8,
        (color.b * 255.0) as u8,
        255,
    ]
}

#[test]
fn sampled_gradients_start_and_end_at_their_end_colors() {
    let gradients: Gradients = sampled_gradients();
    assert_eq!(gradients.magma.map(0), truncated(colorgrad::magma().at(0.0)));
    assert_eq!(gradients.magma.map(255), truncated(colorgrad::magma().at(1.0)));
    assert_eq!(gradients.plasma.map(0), truncated(colorgrad::plasma().at(0.0)));
    assert_eq!(gradients.plasma.map(255), truncated(colorgrad::plasma().at(1.0)));
    assert_eq!(gradients.viridis.map(0), truncated(colorgrad::viridis().at(0.0)));
    assert_eq!(gradients.viridis.map(255), truncated(colorgrad::viridis().at(1.0)));
    assert_eq!(gradients.rainbow.map(0), truncated(colorgrad::rainbow().at(0.0)));
    assert_eq!(gradients.rainbow.map(255), truncated(colorgrad::rainbow().at(1.0)));
}

#[test]
fn sampled_gradients_are_drawn_by_their_styles() {
    let gradients: Gradients = sampled_gradients();
    let binocle: Binocle = Binocle::new(vec![0, 128, 255]);
    let mut settings: BinocleSettings = BinocleSettings::new(3, 3);
    settings.width = 3;
    settings.pixel_style = PixelStyle::GradientViridis;
    let mut frame: Vec<u8> = vec![0; 12];
    binocle.draw(&mut frame, 3, &settings, &gradients);
    let viridis = colorgrad::viridis();
    assert_eq!(frame[0..4], truncated(viridis.at(0.0)));
    assert_eq!(frame[4..8], truncated(viridis.at(128.0 / 255.0)));
    assert_eq!(frame[8..12], truncated(viridis.at(1.0)));
}

#[test]
fn sampled_magma_runs_from_dark_to_light() {
    let gradients: Gradients = sampled_gradients();
    let dark: [u8; 4] = gradients.magma.map(0);
    let light: [u8; 4] = gradients.magma.map(255);
    assert!(dark[0] < 10 && dark[1] < 10 && dark[2] < 10);
    assert!(light[0] > 240 && light[1] > 240);
    assert_eq!(dark[3], 255);
    assert_eq!(light[3], 255);
}
