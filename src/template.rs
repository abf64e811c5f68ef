//! Pieces of the album page: HTML escaping, durations as `M:SS`, and the
//! player script.

use vstd::prelude::*;
use crate::text::{chars_of, decimal_of, push_char, push_decimal};

verus! {

/// The HTML text standing for one character.
pub open spec fn escape_char_of(c: char) -> Seq<char> {
    if c == '&' {
        "&amp;"@
    } else if c == '<' {
        "&lt;"@
    } else if c == '>' {
        "&gt;"@
    } else if c == '"' {
        "&quot;"@
    } else if c == '\'' {
        "&#x27;"@
    } else {
        seq![c]
    }
}

/// `s` with each of `& < > " '` replaced by its character reference.
pub open spec fn html_escape_of(s: Seq<char>) -> Seq<char>
    decreases s.len(),
{
    if s.len() == 0 {
        Seq::empty()
    } else {
        html_escape_of(s.drop_last()) + escape_char_of(s.last())
    }
}

/// Escapes text for use in HTML content and attribute values.
pub fn html_escape(s: &str) -> (r: String)
    ensures
        r@ == html_escape_of(s@),
{
    let cs = chars_of(s);
    let mut out = String::new();
    let mut i: usize = 0;
    while i < cs.len()
        invariant
            i <= cs@.len(),
            cs@ == s@,
            out@ == html_escape_of(s@.subrange(0, i as int)),
        decreases cs@.len() - i,
    {
        let c = cs[i];
        proof {
            assert(s@.subrange(0, i + 1).drop_last() =~= s@.subrange(0, i as int));
        }
        if c == '&' {
            out.append("&amp;");
        } else if c == '<' {
            out.append("&lt;");
        } else if c == '>' {
            out.append("&gt;");
        } else if c == '"' {
            out.append("&quot;");
        } else if c == '\'' {
            out.append("&#x27;");
        } else {
            push_char(&mut out, c);
        }
        i = i + 1;
    }
    assert(s@.subrange(0, s@.len() as int) =~= s@);
    out
}

/// Two decimal digits of a number below 100.
pub open spec fn two_digits_of(n: nat) -> Seq<char> {
    seq![((n / 10) + 48) as char, ((n % 10) + 48) as char]
}

/// `M:SS` for a number of seconds: whole minutes, then two-digit seconds.
pub open spec fn duration_text_of(secs: nat) -> Seq<char> {
    decimal_of(secs / 60) + seq![':'] + two_digits_of(secs % 60)
}

/// Formats a duration given in seconds as `M:SS` (`5:23`, `61:01`).
pub fn format_duration(secs: u64) -> (r: String)
    ensures
        r@ == duration_text_of(secs as nat),
{
    let mut out = String::new();
    push_decimal(&mut out, secs / 60);
    push_char(&mut out, ':');
    let rest = secs % 60;
    let tens: u8 = (rest / 10) as u8 + 48;
    let ones: u8 = (rest % 10) as u8 + 48;
    push_char(&mut out, tens as char);
    push_char(&mut out, ones as char);
    assert(out@ =~= duration_text_of(secs as nat));
    out
}

/// The script of the album page's audio player.
pub fn generate_player_js() -> (r: &'static str) {
    r#"// Audio Player with Oscilloscope Visualization
class AnalogOscilloscope {
    constructor(canvas, analyser) {
        this.canvas = canvas;
        this.ctx = canvas.getContext('2d');
        this.analyser = analyser;
        this.dataArray = new Uint8Array(analyser.frequencyBinCount);
        this.animationId = null;
        this.isRunning = false;
    }

    start() {
        if (this.isRunning) return;
        this.isRunning = true;
        this.draw();
    }

    stop() {
        this.isRunning = false;
        if (this.animationId) {
            cancelAnimationFrame(this.animationId);
            this.animationId = null;
        }
        this.ctx.fillStyle = 'rgba(0, 8, 5, 1)';
        this.ctx.fillRect(0, 0, this.canvas.width, this.canvas.height);
    }

    draw() {
        if (!this.isRunning) return;

        this.animationId = requestAnimationFrame(() => this.draw());
        this.analyser.getByteTimeDomainData(this.dataArray);

        this.ctx.fillStyle = 'rgba(0, 8, 5, 0.1)';
        this.ctx.fillRect(0, 0, this.canvas.width, this.canvas.height);

        this.drawGrid();

        this.ctx.lineWidth = 2;
        this.ctx.strokeStyle = '#00ff88';
        this.ctx.shadowBlur = 15;
        this.ctx.shadowColor = '#00ff88';
        this.ctx.beginPath();

        const sliceWidth = this.canvas.width / this.dataArray.length;
        let x = 0;

        for (let i = 0; i < this.dataArray.length; i++) {
            const v = this.dataArray[i] / 128.0;
            const y = (v * this.canvas.height) / 2;

            if (i === 0) {
                this.ctx.moveTo(x, y);
            } else {
                this.ctx.lineTo(x, y);
            }

            x += sliceWidth;
        }

        this.ctx.stroke();
        this.ctx.shadowBlur = 0;
    }

    drawGrid() {
        this.ctx.strokeStyle = 'rgba(0, 255, 136, 0.1)';
        this.ctx.lineWidth = 1;

        const numHLines = 4;
        for (let i = 0; i <= numHLines; i++) {
            const y = (i * this.canvas.height) / numHLines;
            this.ctx.beginPath();
            this.ctx.moveTo(0, y);
            this.ctx.lineTo(this.canvas.width, y);
            this.ctx.stroke();
        }

        const numVLines = 10;
        for (let i = 0; i <= numVLines; i++) {
            const x = (i * this.canvas.width) / numVLines;
            this.ctx.beginPath();
            this.ctx.moveTo(x, 0);
            this.ctx.lineTo(x, this.canvas.height);
            this.ctx.stroke();
        }
    }
}

class AudioPlayer {
    constructor() {
        this.audio = document.getElementById('audio');
        this.tracks = Array.from(document.querySelectorAll('.track'));
        this.currentTrackIndex = -1;

        this.playBtn = document.getElementById('play-btn');
        this.prevBtn = document.getElementById('prev-btn');
        this.nextBtn = document.getElementById('next-btn');
        this.playIcon = document.getElementById('play-icon');
        this.pauseIcon = document.getElementById('pause-icon');
        this.progressBar = document.getElementById('progress-bar');
        this.progressFill = document.getElementById('progress-fill');
        this.playerTrackEl = document.getElementById('player-track');
        this.playerArtistEl = document.getElementById('player-artist');

        this.audioContext = null;
        this.analyser = null;
        this.source = null;
        this.oscilloscope = null;

        this.initializeAudio();
        this.attachEventListeners();
        this.initializeOscilloscope();
    }

    initializeAudio() {
        this.audio.addEventListener('timeupdate', () => this.updateProgress());
        this.audio.addEventListener('ended', () => this.next());
        this.audio.addEventListener('play', () => this.updatePlayButton(true));
        this.audio.addEventListener('pause', () => this.updatePlayButton(false));
    }

    initializeOscilloscope() {
        const canvas = document.getElementById('oscilloscope');
        if (!canvas) return;

        const setupAudioContext = () => {
            if (this.audioContext) {
                // Resume if suspended (autoplay policy)
                if (this.audioContext.state === 'suspended') {
                    this.audioContext.resume();
                }
                return;
            }

            this.audioContext = new (window.AudioContext || window.webkitAudioContext)();
            this.analyser = this.audioContext.createAnalyser();
            this.analyser.fftSize = 2048;

            // Only create source if it doesn't exist (can only call once per audio element)
            if (!this.source) {
                this.source = this.audioContext.createMediaElementSource(this.audio);
                this.source.connect(this.analyser);
            }
            this.analyser.connect(this.audioContext.destination);

            this.oscilloscope = new AnalogOscilloscope(canvas, this.analyser);
        };

        this.audio.addEventListener('play', () => {
            setupAudioContext();
            if (this.oscilloscope) {
                this.oscilloscope.start();
            }
        });

        this.audio.addEventListener('pause', () => {
            if (this.oscilloscope) {
                this.oscilloscope.stop();
            }
        });
    }

    attachEventListeners() {
        this.tracks.forEach((track, index) => {
            track.addEventListener('click', () => this.playTrack(index));
        });

        this.playBtn.addEventListener('click', () => this.togglePlay());
        this.prevBtn.addEventListener('click', () => this.previous());
        this.nextBtn.addEventListener('click', () => this.next());

        this.progressBar.addEventListener('click', (e) => this.seek(e));

        document.addEventListener('keydown', (e) => {
            if (e.target.tagName === 'INPUT' || e.target.tagName === 'TEXTAREA') return;

            if (e.code === 'Space') {
                e.preventDefault();
                this.togglePlay();
            } else if (e.code === 'ArrowLeft') {
                e.preventDefault();
                this.previous();
            } else if (e.code === 'ArrowRight') {
                e.preventDefault();
                this.next();
            }
        });
    }

    playTrack(index) {
        if (index < 0 || index >= this.tracks.length) return;

        const track = this.tracks[index];
        const src = track.dataset.src;
        const title = track.dataset.title;

        this.currentTrackIndex = index;

        this.tracks.forEach(t => t.classList.remove('playing'));
        track.classList.add('playing');

        this.playerTrackEl.textContent = title;

        this.audio.src = src;
        this.audio.play().catch(err => {
            console.error('Playback failed:', err);
            this.showError(`Failed to play "${title}": ${err.message}`);
            track.classList.remove('playing');
        });
    }

    showError(message) {
        // Display error to user
        this.playerTrackEl.textContent = '⚠️ ' + message;
        this.playerTrackEl.style.color = '#ff006e';
        setTimeout(() => {
            this.playerTrackEl.style.color = '';
            if (this.currentTrackIndex >= 0) {
                this.playerTrackEl.textContent = this.tracks[this.currentTrackIndex]?.dataset.title || 'Select a track';
            } else {
                this.playerTrackEl.textContent = 'Select a track';
            }
        }, 3000);
    }

    togglePlay() {
        if (this.currentTrackIndex === -1 && this.tracks.length > 0) {
            this.playTrack(0);
        } else if (this.audio.paused) {
            this.audio.play();
        } else {
            this.audio.pause();
        }
    }

    previous() {
        if (this.currentTrackIndex > 0) {
            this.playTrack(this.currentTrackIndex - 1);
        }
    }

    next() {
        if (this.currentTrackIndex < this.tracks.length - 1) {
            this.playTrack(this.currentTrackIndex + 1);
        }
    }

    seek(e) {
        const rect = this.progressBar.getBoundingClientRect();
        const percent = (e.clientX - rect.left) / rect.width;
        this.audio.currentTime = percent * this.audio.duration;
    }

    updateProgress() {
        if (!this.audio.duration) return;
        const percent = (this.audio.currentTime / this.audio.duration) * 100;
        this.progressFill.style.width = `${percent}%`;
    }

    updatePlayButton(isPlaying) {
        if (isPlaying) {
            this.playIcon.style.display = 'none';
            this.pauseIcon.style.display = 'block';
        } else {
            this.playIcon.style.display = 'block';
            this.pauseIcon.style.display = 'none';
        }
    }
}

if (document.readyState === 'loading') {
    document.addEventListener('DOMContentLoaded', () => {
        window.audioPlayer = new AudioPlayer();
    });
} else {
    window.audioPlayer = new AudioPlayer();
}
"#
}

} // verus!
