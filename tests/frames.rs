use colorfill::driver::{
    frame_budget_ms, is_stop_signal, poll_step, sleep_time_ms, Action, FrameDriver, Key, RunState,
    Signal,
};
use colorfill::fill::{fill_solid, Rgb};
use colorfill::scene::{channel_from_word, Scene};
use rand::{Rng, SeedableRng, XorShiftRng};

#[test]
fn fill_four_by_four_without_padding() {
    let mut buf = vec![0u8; 48];
    fill_solid(&mut buf, 12, 4, 4, Rgb { r: 10, g: 20, b: 30 });
    let mut want = Vec::new();
    for _ in 0..16 {
        want.extend_from_slice(&[10, 20, 30]);
    }
    assert_eq!(buf, want);
}

#[test]
fn fill_leaves_padding_untouched() {
    let mut buf = vec![7u8; 4 * 16];
    fill_solid(&mut buf, 16, 4, 4, Rgb { r: 1, g: 2, b: 3 });
    for y in 0..4 {
        for x in 0..4 {
            let o = y * 16 + x * 3;
            assert_eq!(&buf[o..o + 3], &[1, 2, 3]);
        }
        for p in 12..16 {
            assert_eq!(buf[y * 16 + p], 7);
        }
    }
}

#[test]
fn fill_bytes_past_last_row_untouched() {
    let mut buf = vec![9u8; 40];
    fill_solid(&mut buf, 6, 2, 3, Rgb { r: 4, g: 5, b: 6 });
    assert_eq!(&buf[0..18], &[4, 5, 6, 4, 5, 6, 4, 5, 6, 4, 5, 6, 4, 5, 6, 4, 5, 6]);
    assert!(buf[18..].iter().all(|&b| b == 9));
}

#[test]
fn fill_non_square_goes_by_rows() {
    // three pixels wide, two rows, one padding byte per row
    let mut buf = vec![0u8; 20];
    fill_solid(&mut buf, 10, 3, 2, Rgb { r: 200, g: 100, b: 50 });
    let row = [200, 100, 50, 200, 100, 50, 200, 100, 50, 0];
    assert_eq!(&buf[0..10], &row);
    assert_eq!(&buf[10..20], &row);
}

#[test]
fn fill_empty_canvas_changes_nothing() {
    let mut buf = vec![3u8; 12];
    fill_solid(&mut buf, 0, 0, 5, Rgb { r: 1, g: 1, b: 1 });
    assert_eq!(buf, vec![3u8; 12]);
    fill_solid(&mut buf, 6, 2, 0, Rgb { r: 1, g: 1, b: 1 });
    assert_eq!(buf, vec![3u8; 12]);
}

#[test]
fn channel_exact_values() {
    assert_eq!(channel_from_word(0), 0);
    assert_eq!(channel_from_word(0x800000), 0);
    assert_eq!(channel_from_word(0x400000), 128);
    assert_eq!(channel_from_word(0x7FFFFF), 255);
    assert_eq!(channel_from_word(u32::MAX), 255);
    assert_eq!(channel_from_word(0x3FFFFF), 127);
}

#[test]
fn channel_never_above_255() {
    let mut w: u32 = 0;
    loop {
        assert!(channel_from_word(w) as u32 <= 255);
        match w.checked_add(0x1_0001) {
            Some(n) => w = n,
            None => break,
        }
    }
}

/// One xorshift step on the state `(x, y, z, w)`, returning the new word.
fn xorshift_word(s: &mut [u32; 4]) -> u32 {
    let t = s[0] ^ (s[0] << 11);
    let w = s[3] ^ (s[3] >> 19) ^ (t ^ (t >> 8));
    *s = [s[1], s[2], s[3], w];
    w
}

#[test]
fn channels_are_drawn_from_xorshift_words() {
    let seed = [1, 2, 3, 4];
    let mut scene = Scene::from_seed(4, 4, seed);
    let mut state = seed;
    for _ in 0..30 {
        let want = channel_from_word(xorshift_word(&mut state));
        assert_eq!(scene.rnd_u8(), want);
    }
}

#[test]
fn seeded_scene_matches_rand_stream() {
    let seed = [9, 8, 7, 6];
    let mut scene = Scene::from_seed(2, 2, seed);
    let mut rng = XorShiftRng::from_seed(seed);
    for _ in 0..10 {
        let c = scene.next_color();
        assert_eq!(c.r, channel_from_word(rng.next_u32()));
        assert_eq!(c.g, channel_from_word(rng.next_u32()));
        assert_eq!(c.b, channel_from_word(rng.next_u32()));
    }
}

#[test]
fn channel_rounds_exactly() {
    // 0x410101 * 255 / 2^23 lies just below 129.5
    assert_eq!(channel_from_word(0x410101), 129);
}

#[test]
fn same_seed_same_colors() {
    let seed = [0x1234, 0, 0xdead, 7];
    let mut a = Scene::from_seed(8, 8, seed);
    let mut b = Scene::from_seed(8, 8, seed);
    let xs: Vec<Rgb> = (0..20).map(|_| a.next_color()).collect();
    let ys: Vec<Rgb> = (0..20).map(|_| b.next_color()).collect();
    assert_eq!(xs, ys);
    let distinct = xs.iter().filter(|c| **c != xs[0]).count();
    assert!(distinct > 0);
}

#[test]
fn draw_fills_with_one_drawn_color() {
    let seed = [5, 6, 7, 8];
    let mut scene = Scene::from_seed(4, 4, seed);
    let mut twin = Scene::from_seed(4, 4, seed);
    let mut buf = vec![0u8; 4 * 13];
    scene.draw(&mut buf, 13);
    let c = twin.next_color();
    for y in 0..4 {
        for x in 0..4 {
            let o = y * 13 + x * 3;
            assert_eq!(&buf[o..o + 3], &[c.r, c.g, c.b]);
        }
        assert_eq!(buf[y * 13 + 12], 0);
    }
    assert_eq!(scene.width, 4);
    assert_eq!(scene.height, 4);
}

#[test]
fn fresh_scene_keeps_dimensions() {
    let mut scene = Scene::new(512, 512);
    let mut buf = vec![0u8; 512 * 1536];
    scene.draw(&mut buf, 1536);
    assert_eq!(&buf[0..3], &buf[buf.len() - 3..]);
    assert_eq!(scene.width, 512);
}

#[test]
fn budget_one_fps() {
    assert_eq!(frame_budget_ms(1), 1000);
}

#[test]
fn budget_two_fps() {
    assert_eq!(frame_budget_ms(2), 500);
}

#[test]
fn budget_rounds_to_nearest() {
    assert_eq!(frame_budget_ms(3), 333);
    assert_eq!(frame_budget_ms(60), 17);
    assert_eq!(frame_budget_ms(16), 63);
    assert_eq!(frame_budget_ms(2000), 1);
    assert_eq!(frame_budget_ms(2001), 0);
}

#[test]
fn sleep_rest_of_budget() {
    assert_eq!(sleep_time_ms(1000, 250), 750);
    assert_eq!(sleep_time_ms(1000, 0), 1000);
}

#[test]
fn sleep_zero_when_over_budget() {
    assert_eq!(sleep_time_ms(1000, 1000), 0);
    assert_eq!(sleep_time_ms(1000, 1500), 0);
    assert_eq!(sleep_time_ms(0, u64::MAX), 0);
}

#[test]
fn stop_signals() {
    assert!(is_stop_signal(&Signal::Quit));
    assert!(is_stop_signal(&Signal::KeyDown(Key::Escape)));
    assert!(!is_stop_signal(&Signal::KeyDown(Key::Other)));
    assert!(!is_stop_signal(&Signal::Other));
}

#[test]
fn poll_without_stop_keeps_running() {
    assert_eq!(poll_step(RunState::Running, &[]), RunState::Running);
    let batch = [Signal::Other, Signal::KeyDown(Key::Other)];
    assert_eq!(poll_step(RunState::Running, &batch), RunState::Running);
    assert_eq!(poll_step(RunState::Stopped, &[]), RunState::Stopped);
}

#[test]
fn quit_stops_before_sleep() {
    let mut d = FrameDriver::new(1);
    assert!(d.is_running());
    assert_eq!(d.poll(&[Signal::Other]), Action::Render);
    assert_eq!(d.sleep_ms(200), 800);
    let batch = [Signal::Other, Signal::Quit, Signal::KeyDown(Key::Other)];
    assert_eq!(d.poll(&batch), Action::Exit);
    assert_eq!(d.state, RunState::Stopped);
    assert!(!d.is_running());
    assert_eq!(d.poll(&[]), Action::Exit);
}

#[test]
fn escape_stops_before_sleep() {
    let mut d = FrameDriver::new(2);
    assert_eq!(d.budget_ms, 500);
    assert_eq!(d.poll(&[Signal::KeyDown(Key::Escape)]), Action::Exit);
    assert_eq!(d.state, RunState::Stopped);
}

#[test]
fn same_seed_same_pixels_whatever_the_buffer_held() {
    let seed = [3, 1, 4, 1];
    let mut a = Scene::from_seed(3, 2, seed);
    let mut b = Scene::from_seed(3, 2, seed);
    let mut ba = vec![0u8; 20];
    let mut bb = vec![0xFFu8; 20];
    for _ in 0..3 {
        a.draw(&mut ba, 10);
        b.draw(&mut bb, 10);
        for y in 0..2 {
            assert_eq!(&ba[y * 10..y * 10 + 9], &bb[y * 10..y * 10 + 9]);
            assert_eq!(ba[y * 10 + 9], 0);
            assert_eq!(bb[y * 10 + 9], 0xFF);
        }
    }
}
