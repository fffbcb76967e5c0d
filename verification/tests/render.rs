use waveform::render::render_centered;
use waveform::render::render_file;
use waveform::render::CenteredWaveformDisplay;
use waveform::render::WaveformDisplay;
use waveform::samples::random_samples;
use waveform::samples::samples_from_bytes;
use waveform::HEIGHT;
use waveform::WIDTH;

const TEAL: [u8; 4] = [0x00, 0x7f, 0x7f, 0xff];
const BLACK: [u8; 4] = [0x00, 0x00, 0x00, 0xff];

fn pixel(frame: &[u8], width: usize, col: usize, row: usize) -> [u8; 4] {
    let base = 4 * (row * width + col);
    [frame[base], frame[base + 1], frame[base + 2], frame[base + 3]]
}

#[test]
fn concrete_scenario_four_by_four() {
    let samples: Vec<u8> = vec![0, 1, 2, 3];
    let mut frame: Vec<u8> = vec![0; 4 * 4 * 4];
    render_file(&samples, 4, 4, &mut frame);
    for col in 0..4 {
        for row in 0..4 {
            // the file axis is inverted: sample v sits on row height-1-v
            let expected = if 3 - row == samples[col] as usize { TEAL } else { BLACK };
            assert_eq!(pixel(&frame, 4, col, row), expected);
        }
    }
    // spelled out: one teal pixel per column, on the anti-diagonal
    assert_eq!(pixel(&frame, 4, 0, 3), TEAL);
    assert_eq!(pixel(&frame, 4, 1, 2), TEAL);
    assert_eq!(pixel(&frame, 4, 2, 1), TEAL);
    assert_eq!(pixel(&frame, 4, 3, 0), TEAL);
    assert_eq!(pixel(&frame, 4, 0, 0), BLACK);
}

#[test]
fn render_twice_is_byte_identical() {
    let mut bytes: Vec<u8> = Vec::new();
    for i in 0..WIDTH {
        bytes.push((i * 7 % 256) as u8);
    }
    let samples = samples_from_bytes(&bytes);
    let display = WaveformDisplay::new(samples);
    let mut first: Vec<u8> = vec![0; WIDTH * HEIGHT * 4];
    let mut second: Vec<u8> = vec![0; WIDTH * HEIGHT * 4];
    display.draw(&mut first);
    display.draw(&mut second);
    assert_eq!(first, second);
    // a second draw over an already-drawn buffer changes nothing either
    display.draw(&mut second);
    assert_eq!(first, second);
}

#[test]
fn file_boundary_samples_hit_extreme_rows() {
    let mut bytes: Vec<u8> = vec![127; WIDTH];
    bytes[0] = 255;
    bytes[1] = 0;
    let samples = samples_from_bytes(&bytes);
    let display = WaveformDisplay::new(samples);
    let mut frame: Vec<u8> = vec![0; WIDTH * HEIGHT * 4];
    display.draw(&mut frame);
    // value 255 is drawn at the top row, value 0 at the bottom row
    assert_eq!(pixel(&frame, WIDTH, 0, 0), TEAL);
    assert_eq!(pixel(&frame, WIDTH, 0, HEIGHT - 1), BLACK);
    assert_eq!(pixel(&frame, WIDTH, 1, HEIGHT - 1), TEAL);
    assert_eq!(pixel(&frame, WIDTH, 1, 0), BLACK);
    // the mid-range fill value 127 is drawn at row 255 - 127 = 128
    assert_eq!(pixel(&frame, WIDTH, 2, 128), TEAL);
}

#[test]
fn file_each_column_has_exactly_one_teal_pixel() {
    let mut bytes: Vec<u8> = Vec::new();
    for i in 0..WIDTH {
        bytes.push((i * 31 % 256) as u8);
    }
    let samples = samples_from_bytes(&bytes);
    let display = WaveformDisplay::new(samples);
    let mut frame: Vec<u8> = vec![0; WIDTH * HEIGHT * 4];
    display.draw(&mut frame);
    for col in 0..WIDTH {
        let mut teal_rows: Vec<usize> = Vec::new();
        for row in 0..HEIGHT {
            let p = pixel(&frame, WIDTH, col, row);
            if p == TEAL {
                teal_rows.push(row);
            } else {
                assert_eq!(p, BLACK);
            }
        }
        assert_eq!(teal_rows.len(), 1);
        assert_eq!(teal_rows[0], HEIGHT - 1 - bytes[col] as usize);
    }
}

#[test]
fn centered_boundary_samples_hit_extreme_rows() {
    let mut samples: Vec<i16> = vec![0; WIDTH];
    samples[0] = -120;
    samples[1] = 135;
    samples[2] = 0;
    let display = CenteredWaveformDisplay::new(samples);
    let mut frame: Vec<u8> = vec![0; WIDTH * HEIGHT * 4];
    display.draw(&mut frame);
    // value -120 is drawn at the top row, value 135 at the bottom row,
    // value 0 at the center row 120
    assert_eq!(pixel(&frame, WIDTH, 0, 0), TEAL);
    assert_eq!(pixel(&frame, WIDTH, 1, HEIGHT - 1), TEAL);
    assert_eq!(pixel(&frame, WIDTH, 2, 120), TEAL);
    assert_eq!(pixel(&frame, WIDTH, 0, 120), BLACK);
}

#[test]
fn centered_off_axis_sample_leaves_column_black() {
    let mut samples: Vec<i16> = vec![0; WIDTH];
    samples[5] = 200;
    samples[6] = -121;
    let display = CenteredWaveformDisplay::new(samples);
    let mut frame: Vec<u8> = vec![0; WIDTH * HEIGHT * 4];
    display.draw(&mut frame);
    for row in 0..HEIGHT {
        assert_eq!(pixel(&frame, WIDTH, 5, row), BLACK);
        assert_eq!(pixel(&frame, WIDTH, 6, row), BLACK);
    }
}

#[test]
fn centered_render_of_random_samples_stays_near_center() {
    let samples = random_samples(-10, 10);
    let mut frame: Vec<u8> = vec![0; WIDTH * HEIGHT * 4];
    render_centered(&samples, WIDTH, HEIGHT, &mut frame);
    for col in 0..WIDTH {
        for row in 0..HEIGHT {
            let p = pixel(&frame, WIDTH, col, row);
            if row == (samples[col] + 120) as usize {
                assert_eq!(p, TEAL);
            } else {
                assert_eq!(p, BLACK);
            }
        }
    }
}

#[test]
fn every_pixel_is_opaque() {
    let samples: Vec<u8> = vec![9, 200, 0, 255, 17];
    let mut frame: Vec<u8> = vec![0; 5 * 256 * 4];
    render_file(&samples, 5, 256, &mut frame);
    let mut k = 3;
    while k < frame.len() {
        assert_eq!(frame[k], 0xff);
        k += 4;
    }
}

#[test]
fn single_pixel_frame() {
    let samples: Vec<u8> = vec![0];
    let mut frame: Vec<u8> = vec![9; 4];
    render_file(&samples, 1, 1, &mut frame);
    assert_eq!(frame, TEAL.to_vec());
    let samples_off: Vec<u8> = vec![1];
    render_file(&samples_off, 1, 1, &mut frame);
    assert_eq!(frame, BLACK.to_vec());
}
